//! The record of a single staked match and its local invariant.

use vstd::prelude::*;

verus! {

/// Lifecycle status of a match.
#[derive(Debug, Clone, Copy, PartialEq, Eq, Structural)]
pub enum GameStatus {
    /// Match created, waiting for an opponent.
    Waiting,
    /// Both players joined, match in progress.
    Active,
    /// Match completed, outcome recorded.
    Completed,
    /// Match cancelled before an opponent joined.
    Cancelled,
}

impl Default for GameStatus {
    fn default() -> (r: Self)
        ensures
            r == GameStatus::Waiting,
    {
        GameStatus::Waiting
    }
}

/// A single match record.
#[derive(Debug)]
pub struct Game {
    /// Unique match identifier, assigned from the registry counter.
    pub id: u64,
    /// Identity of the match creator (player 1).
    pub creator: String,
    /// Identity of the opponent (player 2), `None` until joined.
    pub opponent: Option<String>,
    /// Stake amount escrowed by each participant.
    pub stake: u128,
    /// Current lifecycle status.
    pub status: GameStatus,
    /// Winner identity; `None` before settlement and on a draw.
    pub winner: Option<String>,
    /// Timestamp of creation.
    pub created_at: u64,
    /// Timestamp at which the opponent joined.
    pub started_at: Option<u64>,
    /// Timestamp at which the match reached a terminal state.
    pub ended_at: Option<u64>,
    /// Player 1 final score, meaningful only once completed.
    pub player1_score: u8,
    /// Player 2 final score, meaningful only once completed.
    pub player2_score: u8,
    /// Opaque room code for the real-time transport; not used by the
    /// lifecycle logic.
    pub room_code: String,
}

/// The match record that `Game::new` returns: waiting, no opponent, no
/// winner, zero scores.
pub open spec fn new_game(
    id: u64,
    creator: String,
    stake: u128,
    room_code: String,
    timestamp: u64,
) -> Game {
    Game {
        id,
        creator,
        opponent: None,
        stake,
        status: GameStatus::Waiting,
        winner: None,
        created_at: timestamp,
        started_at: None,
        ended_at: None,
        player1_score: 0,
        player2_score: 0,
        room_code,
    }
}

/// Local well-formedness of one match record: the optional fields are set
/// exactly in the statuses that the state machine reaches (an opponent
/// exists once the match became active, and never before or after a
/// cancellation), the opponent is never the creator, a winner is one of
/// the two participants, and a match that ever became active has a pot
/// `2 * stake` that fits in `u128`.
pub open spec fn game_wf(g: Game) -> bool {
    &&& (g.opponent is Some <==> (g.status == GameStatus::Active || g.status
        == GameStatus::Completed))
    &&& (g.winner is Some ==> g.status == GameStatus::Completed)
    &&& (g.started_at is Some <==> (g.status == GameStatus::Active || g.status
        == GameStatus::Completed))
    &&& (g.ended_at is Some <==> (g.status == GameStatus::Completed || g.status
        == GameStatus::Cancelled))
    &&& (g.opponent matches Some(o) ==> o@ != g.creator@)
    &&& (g.winner matches Some(w) ==> g.opponent matches Some(o) && (w@ == g.creator@ || w@
        == o@))
    &&& (g.status == GameStatus::Active || g.status == GameStatus::Completed ==> 2 * g.stake
        <= u128::MAX)
    &&& (g.status != GameStatus::Completed ==> g.player1_score == 0 && g.player2_score == 0)
}

impl Game {
    /// Create a new match record in the waiting state.
    pub fn new(id: u64, creator: String, stake: u128, room_code: String, timestamp: u64) -> (r:
        Self)
        ensures
            r == new_game(id, creator, stake, room_code, timestamp),
    {
        Self {
            id,
            creator,
            opponent: None,
            stake,
            status: GameStatus::Waiting,
            winner: None,
            created_at: timestamp,
            started_at: None,
            ended_at: None,
            player1_score: 0,
            player2_score: 0,
            room_code,
        }
    }

    /// Whether an opponent may still join: the match is waiting and has no
    /// opponent yet.
    pub fn can_join(&self) -> (r: bool)
        ensures
            r == (self.status == GameStatus::Waiting && self.opponent is None),
    {
        self.status == GameStatus::Waiting && self.opponent.is_none()
    }

    /// Whether the match is in progress.
    pub fn is_active(&self) -> (r: bool)
        ensures
            r == (self.status == GameStatus::Active),
    {
        self.status == GameStatus::Active
    }

    /// Whether the match has completed.
    pub fn is_completed(&self) -> (r: bool)
        ensures
            r == (self.status == GameStatus::Completed),
    {
        self.status == GameStatus::Completed
    }

    /// Total pot at play for this match: both stakes.
    pub fn total_pot(&self) -> (r: u128)
        requires
            2 * self.stake <= u128::MAX,
        ensures
            r == 2 * self.stake,
    {
        self.stake * 2
    }
}

impl Clone for Game {
    /// Field-for-field copy of the record.
    fn clone(&self) -> (r: Self)
        ensures
            r == self,
    {
        Game {
            id: self.id,
            creator: self.creator.clone(),
            opponent: match &self.opponent {
                Some(o) => Some(o.clone()),
                None => None,
            },
            stake: self.stake,
            status: self.status,
            winner: match &self.winner {
                Some(w) => Some(w.clone()),
                None => None,
            },
            created_at: self.created_at,
            started_at: self.started_at,
            ended_at: self.ended_at,
            player1_score: self.player1_score,
            player2_score: self.player2_score,
            room_code: self.room_code.clone(),
        }
    }
}

} // verus!
