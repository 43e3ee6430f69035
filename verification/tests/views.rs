use air_hockey::game::GameStatus;
use air_hockey::service::GameInfo;
use air_hockey::state::AirHockeyState;

fn fresh() -> AirHockeyState {
    let mut s = AirHockeyState::new();
    s.initialize("O".to_string()).unwrap();
    s
}

#[test]
fn open_matches_sorted_ascending_and_waiting_only() {
    let mut s = fresh();
    for (who, stake, room, t) in [
        ("A", 10, "R1", 1u64),
        ("B", 20, "R2", 2),
        ("C", 30, "R3", 3),
        ("D", 40, "R4", 4),
    ] {
        s.create_game(who.to_string(), stake, room.to_string(), t)
            .unwrap();
    }
    // match 2 starts, match 3 is cancelled: both leave the open list
    s.join_game(2, "E".to_string(), 5).unwrap();
    let c = "C".to_string();
    s.cancel_game(3, &c, 6).unwrap();
    let open = s.get_open_games();
    let ids: Vec<u64> = open.iter().map(|g| g.id).collect();
    assert_eq!(ids, vec![1, 4]);
    assert!(open.iter().all(|g| g.status == GameStatus::Waiting));
    for w in open.windows(2) {
        assert!(w[0].id < w[1].id);
    }
}

#[test]
fn player_matches_cover_both_roles_in_order() {
    let mut s = fresh();
    s.create_game("A".to_string(), 10, "R1".to_string(), 1)
        .unwrap();
    s.create_game("B".to_string(), 20, "R2".to_string(), 2)
        .unwrap();
    s.create_game("C".to_string(), 30, "R3".to_string(), 3)
        .unwrap();
    s.join_game(2, "A".to_string(), 4).unwrap();
    let mine = s.get_player_games(&"A".to_string());
    let ids: Vec<u64> = mine.iter().map(|g| g.id).collect();
    assert_eq!(ids, vec![1, 2]);
    let theirs = s.get_player_games(&"Z".to_string());
    assert!(theirs.is_empty());
}

#[test]
fn game_info_renders_stake_and_status() {
    let mut s = fresh();
    s.create_game("A".to_string(), 100, "R1".to_string(), 1)
        .unwrap();
    let info = s.game_info(1).unwrap();
    assert_eq!(info.id, 1);
    assert_eq!(info.creator, "A");
    assert_eq!(info.stake, "100");
    assert_eq!(info.status, "Waiting");
    assert_eq!(info.opponent, None);
    assert_eq!(info.room_code, "R1");
    assert!(s.game_info(2).is_none());
    s.join_game(1, "B".to_string(), 2).unwrap();
    let info = s.game_info(1).unwrap();
    assert_eq!(info.status, "Active");
    assert_eq!(info.opponent.as_deref(), Some("B"));
    let caller = "A".to_string();
    s.submit_result(1, 9, 2, &caller, 3).unwrap();
    let info = s.game_info(1).unwrap();
    assert_eq!(info.status, "Completed");
    assert_eq!(info.winner.as_deref(), Some("A"));
    assert_eq!((info.player1_score, info.player2_score), (9, 2));
}

#[test]
fn game_info_renders_large_amounts_in_decimal() {
    let mut s = fresh();
    s.create_game(
        "A".to_string(),
        340282366920938463463374607431768211455,
        "R1".to_string(),
        1,
    )
    .unwrap();
    let info = s.game_info(1).unwrap();
    assert_eq!(info.stake, "340282366920938463463374607431768211455");
    let mut t = fresh();
    t.create_game("A".to_string(), 0, "R0".to_string(), 1)
        .unwrap();
    assert_eq!(t.game_info(1).unwrap().stake, "0");
    let mut u = fresh();
    u.create_game("A".to_string(), 1000, "Rk".to_string(), 1)
        .unwrap();
    assert_eq!(u.game_info(1).unwrap().stake, "1000");
}

#[test]
fn responses_carry_totals() {
    let mut s = fresh();
    s.create_game("A".to_string(), 10, "R1".to_string(), 1)
        .unwrap();
    s.create_game("B".to_string(), 20, "R2".to_string(), 2)
        .unwrap();
    let open = s.open_games_info();
    assert_eq!(open.total, 2);
    assert_eq!(open.games.len(), 2);
    assert_eq!(open.games[0].id, 1);
    assert_eq!(open.games[1].id, 2);
    let mine = s.player_games_info(&"B".to_string());
    assert_eq!(mine.total, 1);
    assert_eq!(mine.games[0].creator, "B");
    let none = s.player_games_info(&"Z".to_string());
    assert_eq!(none.total, 0);
    assert!(none.games.is_empty());
}

#[test]
fn cancelled_match_renders_by_name() {
    let mut s = fresh();
    s.create_game("A".to_string(), 10, "R1".to_string(), 1)
        .unwrap();
    let caller = "A".to_string();
    s.cancel_game(1, &caller, 2).unwrap();
    let info = s.game_info(1).unwrap();
    assert_eq!(info.status, "Cancelled");
    assert_eq!(info.ended_at, Some(2));
}

#[test]
fn stats_absent_until_first_settlement() {
    let mut s = fresh();
    assert!(s.get_player_stats(&"A".to_string()).is_none());
    s.create_game("A".to_string(), 10, "R1".to_string(), 1)
        .unwrap();
    // creating and joining do not touch the statistics
    s.join_game(1, "B".to_string(), 2).unwrap();
    assert!(s.get_player_stats(&"A".to_string()).is_none());
    assert!(s.get_player_stats(&"B".to_string()).is_none());
    let caller = "B".to_string();
    s.submit_result(1, 0, 1, &caller, 3).unwrap();
    assert!(s.get_player_stats(&"A".to_string()).is_some());
    assert!(s.get_player_stats(&"B".to_string()).is_some());
}

#[test]
fn direct_rendering_of_one_record() {
    let g = air_hockey::game::Game::new(5, "X".to_string(), 42, "room-5".to_string(), 7);
    let info = GameInfo::from_game(&g);
    assert_eq!(info.id, 5);
    assert_eq!(info.stake, "42");
    assert_eq!(info.status, "Waiting");
    assert_eq!(info.created_at, 7);
    assert_eq!(info.room_code, "room-5");
}
