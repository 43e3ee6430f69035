use air_hockey::contract::Operation;
use air_hockey::errors::ContractError;
use air_hockey::game::Game;
use air_hockey::game::GameStatus;
use air_hockey::state::AirHockeyState;

fn fresh(owner: &str) -> AirHockeyState {
    let mut s = AirHockeyState::new();
    s.initialize(owner.to_string()).unwrap();
    s
}

#[test]
fn create_first_match() {
    let mut s = fresh("O");
    let id = s
        .create_game("A".to_string(), 100, "R1".to_string(), 1)
        .unwrap();
    assert_eq!(id, 1);
    assert_eq!(s.next_game_id, 2);
    assert_eq!(s.total_stake_pool, 100);
    let g = s.get_game(1).unwrap();
    assert_eq!(g.status, GameStatus::Waiting);
    assert_eq!(g.creator, "A");
    assert_eq!(g.stake, 100);
    assert_eq!(g.opponent, None);
    assert_eq!(g.created_at, 1);
    assert_eq!(g.started_at, None);
    assert_eq!(g.ended_at, None);
    assert_eq!(g.room_code, "R1");
}

#[test]
fn join_activates_and_rejects() {
    let mut s = fresh("O");
    s.create_game("A".to_string(), 100, "R1".to_string(), 1)
        .unwrap();
    s.join_game(1, "B".to_string(), 2).unwrap();
    let g = s.get_game(1).unwrap();
    assert_eq!(g.status, GameStatus::Active);
    assert_eq!(g.opponent.as_deref(), Some("B"));
    assert_eq!(g.started_at, Some(2));
    assert_eq!(s.total_stake_pool, 200);
    // a second join of the started match is illegal, whoever asks
    let err = s.join_game(1, "A".to_string(), 3).unwrap_err();
    assert_eq!(err, ContractError::InvalidState);
    assert_eq!(s.total_stake_pool, 200);
}

#[test]
fn self_join_refused() {
    let mut s = fresh("O");
    s.create_game("A".to_string(), 100, "R1".to_string(), 1)
        .unwrap();
    let err = s.join_game(1, "A".to_string(), 2).unwrap_err();
    assert_eq!(err, ContractError::SelfJoin);
    assert_eq!(s.total_stake_pool, 100);
    assert_eq!(s.get_game(1).unwrap().status, GameStatus::Waiting);
}

#[test]
fn join_unknown_match() {
    let mut s = fresh("O");
    s.create_game("A".to_string(), 100, "R1".to_string(), 1)
        .unwrap();
    let err = s.join_game(99, "C".to_string(), 4).unwrap_err();
    assert_eq!(err, ContractError::NotFound);
    let err0 = s.join_game(0, "C".to_string(), 4).unwrap_err();
    assert_eq!(err0, ContractError::NotFound);
}

#[test]
fn decisive_settlement_pays_winner_and_updates_stats() {
    let mut s = fresh("O");
    s.create_game("A".to_string(), 100, "R1".to_string(), 1)
        .unwrap();
    s.join_game(1, "B".to_string(), 2).unwrap();
    let caller = "A".to_string();
    let (winner, payout) = s.submit_result(1, 5, 3, &caller, 5).unwrap();
    assert_eq!(winner.as_deref(), Some("A"));
    assert_eq!(payout, 200);
    assert_eq!(s.total_stake_pool, 0);
    let g = s.get_game(1).unwrap();
    assert_eq!(g.status, GameStatus::Completed);
    assert_eq!(g.winner.as_deref(), Some("A"));
    assert_eq!(g.player1_score, 5);
    assert_eq!(g.player2_score, 3);
    assert_eq!(g.ended_at, Some(5));
    let sa = s.get_player_stats(&"A".to_string()).unwrap();
    assert_eq!(sa.games_played, 1);
    assert_eq!(sa.wins, 1);
    assert_eq!(sa.losses, 0);
    assert_eq!(sa.tokens_won, 100);
    assert_eq!(sa.tokens_lost, 0);
    let sb = s.get_player_stats(&"B".to_string()).unwrap();
    assert_eq!(sb.games_played, 1);
    assert_eq!(sb.wins, 0);
    assert_eq!(sb.losses, 1);
    assert_eq!(sb.tokens_won, 0);
    assert_eq!(sb.tokens_lost, 100);
}

#[test]
fn opponent_win_goes_to_opponent() {
    let mut s = fresh("O");
    s.create_game("A".to_string(), 70, "R1".to_string(), 1)
        .unwrap();
    s.join_game(1, "B".to_string(), 2).unwrap();
    let caller = "B".to_string();
    let (winner, payout) = s.submit_result(1, 2, 9, &caller, 3).unwrap();
    assert_eq!(winner.as_deref(), Some("B"));
    assert_eq!(payout, 140);
    let sb = s.get_player_stats(&"B".to_string()).unwrap();
    assert_eq!(sb.wins, 1);
    assert_eq!(sb.tokens_won, 70);
}

#[test]
fn draw_refunds_both_and_moves_no_tokens() {
    let mut s = fresh("O");
    s.create_game("A".to_string(), 100, "R1".to_string(), 1)
        .unwrap();
    s.join_game(1, "B".to_string(), 2).unwrap();
    // the drawn match of stake 50
    s.create_game("C".to_string(), 50, "R2".to_string(), 3)
        .unwrap();
    s.join_game(2, "D".to_string(), 4).unwrap();
    let pool_before = s.total_stake_pool;
    let caller = "C".to_string();
    let (winner, payout) = s.submit_result(2, 4, 4, &caller, 5).unwrap();
    assert_eq!(winner, None);
    assert_eq!(payout, 100);
    assert_eq!(s.total_stake_pool, pool_before - 100);
    let g = s.get_game(2).unwrap();
    assert_eq!(g.status, GameStatus::Completed);
    assert_eq!(g.winner, None);
    for p in ["C", "D"] {
        let st = s.get_player_stats(&p.to_string()).unwrap();
        assert_eq!(st.games_played, 1);
        assert_eq!(st.wins, 0);
        assert_eq!(st.losses, 0);
        assert_eq!(st.tokens_won, 0);
        assert_eq!(st.tokens_lost, 0);
    }
}

#[test]
fn cancel_refunds_creator() {
    let mut s = fresh("O");
    s.create_game("A".to_string(), 100, "R1".to_string(), 1)
        .unwrap();
    let caller = "A".to_string();
    let refund = s.cancel_game(1, &caller, 9).unwrap();
    assert_eq!(refund, 100);
    assert_eq!(s.total_stake_pool, 0);
    let g = s.get_game(1).unwrap();
    assert_eq!(g.status, GameStatus::Cancelled);
    assert_eq!(g.ended_at, Some(9));
}

#[test]
fn cancel_twice_fails_invalid_state() {
    let mut s = fresh("O");
    s.create_game("A".to_string(), 100, "R1".to_string(), 1)
        .unwrap();
    let caller = "A".to_string();
    s.cancel_game(1, &caller, 2).unwrap();
    let pool = s.total_stake_pool;
    let err = s.cancel_game(1, &caller, 3).unwrap_err();
    assert_eq!(err, ContractError::InvalidState);
    assert_eq!(s.total_stake_pool, pool);
    assert_eq!(s.get_game(1).unwrap().status, GameStatus::Cancelled);
}

#[test]
fn submit_twice_fails_invalid_state() {
    let mut s = fresh("O");
    s.create_game("A".to_string(), 100, "R1".to_string(), 1)
        .unwrap();
    s.join_game(1, "B".to_string(), 2).unwrap();
    let caller = "A".to_string();
    s.submit_result(1, 5, 3, &caller, 3).unwrap();
    let pool = s.total_stake_pool;
    let sa_before = s.get_player_stats(&"A".to_string()).unwrap();
    let err = s.submit_result(1, 7, 1, &caller, 4).unwrap_err();
    assert_eq!(err, ContractError::InvalidState);
    assert_eq!(s.total_stake_pool, pool);
    let sa_after = s.get_player_stats(&"A".to_string()).unwrap();
    assert_eq!(sa_before, sa_after);
    // the recorded scores stay those of the first submission
    let g = s.get_game(1).unwrap();
    assert_eq!((g.player1_score, g.player2_score), (5, 3));
}

#[test]
fn cancel_by_non_creator_fails_not_authorized() {
    let mut s = fresh("O");
    s.create_game("A".to_string(), 100, "R1".to_string(), 1)
        .unwrap();
    let caller = "B".to_string();
    let err = s.cancel_game(1, &caller, 2).unwrap_err();
    assert_eq!(err, ContractError::NotAuthorized);
    assert_eq!(s.total_stake_pool, 100);
    assert_eq!(s.get_game(1).unwrap().status, GameStatus::Waiting);
}

#[test]
fn cancel_active_match_fails_invalid_state() {
    let mut s = fresh("O");
    s.create_game("A".to_string(), 100, "R1".to_string(), 1)
        .unwrap();
    s.join_game(1, "B".to_string(), 2).unwrap();
    let caller = "A".to_string();
    let err = s.cancel_game(1, &caller, 3).unwrap_err();
    assert_eq!(err, ContractError::InvalidState);
}

#[test]
fn submit_by_non_participant_fails_not_authorized() {
    let mut s = fresh("O");
    s.create_game("A".to_string(), 100, "R1".to_string(), 1)
        .unwrap();
    s.join_game(1, "B".to_string(), 2).unwrap();
    let caller = "E".to_string();
    let err = s.submit_result(1, 5, 3, &caller, 3).unwrap_err();
    assert_eq!(err, ContractError::NotAuthorized);
    assert_eq!(s.get_game(1).unwrap().status, GameStatus::Active);
    assert_eq!(s.total_stake_pool, 200);
}

#[test]
fn submit_on_waiting_match_fails_invalid_state() {
    let mut s = fresh("O");
    s.create_game("A".to_string(), 100, "R1".to_string(), 1)
        .unwrap();
    let caller = "A".to_string();
    let err = s.submit_result(1, 5, 3, &caller, 2).unwrap_err();
    assert_eq!(err, ContractError::InvalidState);
}

#[test]
fn submit_unknown_match_fails_not_found() {
    let mut s = fresh("O");
    let caller = "C".to_string();
    let err = s.submit_result(99, 1, 0, &caller, 2).unwrap_err();
    assert_eq!(err, ContractError::NotFound);
    let err2 = s.cancel_game(99, &caller, 2).unwrap_err();
    assert_eq!(err2, ContractError::NotFound);
}

#[test]
fn pool_overflow_refused_as_invariant_violation() {
    let mut s = fresh("O");
    s.create_game("A".to_string(), u128::MAX, "R1".to_string(), 1)
        .unwrap();
    assert_eq!(s.total_stake_pool, u128::MAX);
    let err = s
        .create_game("B".to_string(), 1, "R2".to_string(), 2)
        .unwrap_err();
    assert_eq!(err, ContractError::InvariantViolation);
    assert_eq!(s.next_game_id, 2);
    assert_eq!(s.total_stake_pool, u128::MAX);
    // joining the huge match would overflow the pool too
    let err2 = s.join_game(1, "B".to_string(), 3).unwrap_err();
    assert_eq!(err2, ContractError::InvariantViolation);
}

#[test]
fn token_counters_saturate_instead_of_overflowing() {
    let big: u128 = u128::MAX / 2;
    let mut s = fresh("O");
    // two huge decisive wins, then a small one: the accumulator clamps
    for (id, t) in [(1u64, 1u64), (2, 10)] {
        s.create_game("A".to_string(), big, format!("R{}", id), t)
            .unwrap();
        s.join_game(id, "B".to_string(), t + 1).unwrap();
        let caller = "A".to_string();
        s.submit_result(id, 3, 0, &caller, t + 2).unwrap();
    }
    let sa = s.get_player_stats(&"A".to_string()).unwrap();
    assert_eq!(sa.tokens_won, u128::MAX - 1);
    s.create_game("A".to_string(), 100, "R3".to_string(), 20)
        .unwrap();
    s.join_game(3, "B".to_string(), 21).unwrap();
    let caller = "A".to_string();
    s.submit_result(3, 1, 0, &caller, 22).unwrap();
    let sa = s.get_player_stats(&"A".to_string()).unwrap();
    assert_eq!(sa.tokens_won, u128::MAX);
    assert_eq!(sa.wins, 3);
    let sb = s.get_player_stats(&"B".to_string()).unwrap();
    assert_eq!(sb.tokens_lost, u128::MAX);
}

#[test]
fn identifiers_are_never_reused() {
    let mut s = fresh("O");
    s.create_game("A".to_string(), 10, "R1".to_string(), 1)
        .unwrap();
    let caller = "A".to_string();
    s.cancel_game(1, &caller, 2).unwrap();
    let id = s
        .create_game("A".to_string(), 10, "R2".to_string(), 3)
        .unwrap();
    assert_eq!(id, 2);
    assert_eq!(s.get_game(1).unwrap().status, GameStatus::Cancelled);
    assert_eq!(s.get_game(2).unwrap().status, GameStatus::Waiting);
}

#[test]
fn game_helpers_report_status() {
    let g = Game::new(7, "A".to_string(), 30, "room".to_string(), 11);
    assert!(g.can_join());
    assert!(!g.is_active());
    assert!(!g.is_completed());
    assert_eq!(g.total_pot(), 60);
    assert_eq!(g.id, 7);
    let copy = g.clone();
    assert_eq!(copy.creator, g.creator);
    assert_eq!(copy.stake, g.stake);
    assert_eq!(copy.room_code, g.room_code);
    assert_eq!(GameStatus::default(), GameStatus::Waiting);
}

#[test]
fn initialize_records_owner() {
    let s = fresh("owner-1");
    assert_eq!(s.owner, "owner-1");
    assert_eq!(s.next_game_id, 1);
    assert_eq!(s.total_stake_pool, 0);
    assert!(s.get_game(1).is_none());
}

#[test]
fn initialize_only_once() {
    let mut s = fresh("O");
    s.create_game("A".to_string(), 10, "R1".to_string(), 1)
        .unwrap();
    // the owner is immutable: a second initialization is refused and
    // discards nothing — no owner change, no lost escrow, no reused ids
    let err = s.initialize("P".to_string()).unwrap_err();
    assert_eq!(err, ContractError::AlreadyInitialized);
    assert_eq!(s.owner, "O");
    assert_eq!(s.next_game_id, 2);
    assert_eq!(s.total_stake_pool, 10);
    assert_eq!(s.get_game(1).unwrap().status, GameStatus::Waiting);
}

#[test]
fn initialize_through_executor_guarded() {
    let mut s = AirHockeyState::new();
    let out = s
        .execute_operation(
            Operation::Initialize {
                owner: "P".to_string(),
            },
            "caller".to_string(),
            0,
            5,
        )
        .unwrap();
    assert!(out.transfers.is_empty());
    assert!(out.message.is_none());
    assert_eq!(s.owner, "P");
    assert_eq!(s.next_game_id, 1);
    s.create_game("A".to_string(), 10, "R1".to_string(), 6)
        .unwrap();
    let err = s
        .execute_operation(
            Operation::Initialize {
                owner: "Q".to_string(),
            },
            "caller".to_string(),
            0,
            7,
        )
        .unwrap_err();
    assert_eq!(err, ContractError::AlreadyInitialized);
    assert_eq!(s.owner, "P");
    assert_eq!(s.next_game_id, 2);
    assert_eq!(s.total_stake_pool, 10);
}
