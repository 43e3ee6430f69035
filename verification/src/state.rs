//! The aggregate ledger state: match registry, settlement engine, stats
//! aggregation and the derived read-only queries.

use vstd::prelude::*;

use crate::errors::ContractError;
use crate::game::Game;
use crate::game::GameStatus;
use crate::game::game_wf;
use crate::game::new_game;
use crate::stats::PlayerStats;
use crate::stats::StatsEntry;
use crate::stats::has_stats;
use crate::stats::lemma_stats_of_at;
use crate::stats::lemma_stats_of_push;
use crate::stats::lemma_stats_of_update;
use crate::stats::lemma_unique_push;
use crate::stats::lemma_unique_update;
use crate::stats::settle_one;
use crate::stats::stats_keys_unique;
use crate::stats::stats_of;

verus! {

/// The whole ledger: the identifier counter, every match ever created
/// (the match with id `i` sits at index `i - 1`), the per-player counters,
/// the escrowed aggregate, and the instance owner.
#[derive(Debug)]
pub struct AirHockeyState {
    /// Next identifier to assign; starts at 1 and never reuses a value.
    pub next_game_id: u64,
    /// Every match ever created, in creation order.
    pub games: Vec<Game>,
    /// Statistics rows, one per identity ever settled.
    pub player_stats: Vec<StatsEntry>,
    /// Sum of funds currently escrowed: one stake per waiting match, two
    /// per active match.
    pub total_stake_pool: u128,
    /// Instance owner identity, set at initialization.
    pub owner: String,
}

/// How much a match holds in escrow: its stake while waiting, the whole
/// pot while active, nothing once terminal.
pub open spec fn stake_contribution(g: Game) -> int {
    if g.status == GameStatus::Waiting {
        g.stake as int
    } else if g.status == GameStatus::Active {
        2 * g.stake
    } else {
        0
    }
}

/// Total escrow owed by a sequence of matches.
pub open spec fn pool_of(games: Seq<Game>) -> int
    decreases games.len(),
{
    if games.len() == 0 {
        0
    } else {
        pool_of(games.drop_last()) + stake_contribution(games.last())
    }
}

/// Matches sit at the index their identifier names: `games[i].id == i + 1`.
pub open spec fn ids_sequential(games: Seq<Game>) -> bool {
    forall|i: int| 0 <= i < games.len() ==> (#[trigger] games[i]).id == i + 1
}

/// Every match record is locally well formed.
pub open spec fn games_wf(games: Seq<Game>) -> bool {
    forall|i: int| 0 <= i < games.len() ==> game_wf(#[trigger] games[i])
}

/// A known identifier: ids run from 1 up to the number of matches created.
pub open spec fn valid_id(games: Seq<Game>, game_id: u64) -> bool {
    1 <= game_id <= games.len()
}

impl AirHockeyState {
    /// The escrow bookkeeping invariant: the recorded pool equals the sum
    /// of one stake per waiting match and two stakes per active match.
    pub open spec fn pool_invariant(self) -> bool {
        self.total_stake_pool as int == pool_of(self.games@)
    }

    /// Well-formedness of the whole ledger: the counter is one past the
    /// number of matches created, identifiers are dense and ascending,
    /// each record is well formed, the pool invariant holds, and the
    /// statistics table has one row per identity.
    pub open spec fn wf(self) -> bool {
        &&& self.next_game_id as int == self.games@.len() + 1
        &&& ids_sequential(self.games@)
        &&& games_wf(self.games@)
        &&& self.pool_invariant()
        &&& stats_keys_unique(self.player_stats@)
    }

    /// Whether an owner has been recorded. The owner is set once, by the
    /// one successful initialization, and is immutable thereafter.
    pub open spec fn is_initialized(self) -> bool {
        self.owner@.len() > 0
    }
}

/// The content of an optional identity.
pub open spec fn opt_view(o: Option<String>) -> Option<Seq<char>> {
    match o {
        Some(s) => Some(s@),
        None => None,
    }
}

/// Both states hold exactly the same data.
pub open spec fn state_eq(a: AirHockeyState, b: AirHockeyState) -> bool {
    &&& a.next_game_id == b.next_game_id
    &&& a.games@ == b.games@
    &&& a.player_stats@ == b.player_stats@
    &&& a.total_stake_pool == b.total_stake_pool
    &&& a.owner@ == b.owner@
}

// ---------------------------------------------------------------------
// Validation and transition functions, one pair per operation. The
// executable operations below return exactly the error these functions
// name, or apply exactly the transition they describe.
// ---------------------------------------------------------------------
/// Whether a creation must be refused: the identifier counter or the
/// escrow pool would overflow. Never a caller mistake.
pub open spec fn create_check(next_game_id: u64, pool: int, stake: u128) -> Option<
    ContractError,
> {
    if next_game_id == u64::MAX || pool + stake > u128::MAX {
        Some(ContractError::InvariantViolation)
    } else {
        None
    }
}

/// Which error a join attempt earns, if any: unknown id, a match not
/// open for joining, the creator joining themselves, or pool overflow —
/// checked in that order.
pub open spec fn join_check(games: Seq<Game>, pool: int, game_id: u64, opponent: Seq<
    char,
>) -> Option<ContractError> {
    if !valid_id(games, game_id) {
        Some(ContractError::NotFound)
    } else {
        let g = games[game_id - 1];
        if !(g.status == GameStatus::Waiting && g.opponent is None) {
            Some(ContractError::InvalidState)
        } else if g.creator@ == opponent {
            Some(ContractError::SelfJoin)
        } else if pool + g.stake > u128::MAX {
            Some(ContractError::InvariantViolation)
        } else {
            None
        }
    }
}

/// The match records after a successful join: the opponent is recorded
/// and the match becomes active.
pub open spec fn join_apply(games: Seq<Game>, game_id: u64, opponent: String, now: u64) -> Seq<
    Game,
> {
    let g = games[game_id - 1];
    games.update(
        game_id - 1,
        Game { opponent: Some(opponent), status: GameStatus::Active, started_at: Some(now), ..g },
    )
}

/// Which error a result submission earns, if any: unknown id, a match
/// that is not active, or a caller who is neither participant — checked
/// in that order.
pub open spec fn submit_check(games: Seq<Game>, game_id: u64, caller: Seq<char>) -> Option<
    ContractError,
> {
    if !valid_id(games, game_id) {
        Some(ContractError::NotFound)
    } else {
        let g = games[game_id - 1];
        if g.status != GameStatus::Active {
            Some(ContractError::InvalidState)
        } else if !(caller == g.creator@ || (g.opponent matches Some(o) && caller == o@)) {
            Some(ContractError::NotAuthorized)
        } else {
            None
        }
    }
}

/// Winner resolution: the creator on a higher first score, the opponent
/// on a higher second score, nobody on a draw.
pub open spec fn winner_of(g: Game, score1: u8, score2: u8) -> Option<String> {
    if score1 > score2 {
        Some(g.creator)
    } else if score2 > score1 {
        g.opponent
    } else {
        None
    }
}

/// The match records after a successful settlement: scores and winner
/// recorded, the match completed.
pub open spec fn submit_apply(games: Seq<Game>, game_id: u64, score1: u8, score2: u8, now: u64) -> Seq<
    Game,
> {
    let g = games[game_id - 1];
    games.update(
        game_id - 1,
        Game {
            status: GameStatus::Completed,
            winner: winner_of(g, score1, score2),
            ended_at: Some(now),
            player1_score: score1,
            player2_score: score2,
            ..g
        },
    )
}

/// Which error a cancellation earns, if any: unknown id, a match that
/// already started or ended, or a caller other than the creator —
/// checked in that order.
pub open spec fn cancel_check(games: Seq<Game>, game_id: u64, caller: Seq<char>) -> Option<
    ContractError,
> {
    if !valid_id(games, game_id) {
        Some(ContractError::NotFound)
    } else {
        let g = games[game_id - 1];
        if g.status != GameStatus::Waiting {
            Some(ContractError::InvalidState)
        } else if caller != g.creator@ {
            Some(ContractError::NotAuthorized)
        } else {
            None
        }
    }
}

/// The match records after a successful cancellation.
pub open spec fn cancel_apply(games: Seq<Game>, game_id: u64, now: u64) -> Seq<Game> {
    let g = games[game_id - 1];
    games.update(game_id - 1, Game { status: GameStatus::Cancelled, ended_at: Some(now), ..g })
}

/// The matches still waiting for an opponent, in creation order.
pub open spec fn waiting_games(games: Seq<Game>) -> Seq<Game>
    decreases games.len(),
{
    if games.len() == 0 {
        Seq::empty()
    } else {
        let rest = waiting_games(games.drop_last());
        if games.last().status == GameStatus::Waiting {
            rest.push(games.last())
        } else {
            rest
        }
    }
}

/// Whether `who` takes part in the match, as creator or opponent.
pub open spec fn is_participant(g: Game, who: Seq<char>) -> bool {
    g.creator@ == who || (g.opponent matches Some(o) && o@ == who)
}

/// The matches `who` takes part in, in creation order.
pub open spec fn games_of_player(games: Seq<Game>, who: Seq<char>) -> Seq<Game>
    decreases games.len(),
{
    if games.len() == 0 {
        Seq::empty()
    } else {
        let rest = games_of_player(games.drop_last(), who);
        if is_participant(games.last(), who) {
            rest.push(games.last())
        } else {
            rest
        }
    }
}

/// Appending a match extends the waiting list exactly when it waits.
pub proof fn lemma_waiting_games_push(games: Seq<Game>, g: Game)
    ensures
        waiting_games(games.push(g)) == (if g.status == GameStatus::Waiting {
            waiting_games(games).push(g)
        } else {
            waiting_games(games)
        }),
{
    assert(games.push(g).drop_last() =~= games);
    assert(games.push(g).last() == g);
}

/// Appending a match extends a player's list exactly when they take part.
pub proof fn lemma_games_of_player_push(games: Seq<Game>, g: Game, who: Seq<char>)
    ensures
        games_of_player(games.push(g), who) == (if is_participant(g, who) {
            games_of_player(games, who).push(g)
        } else {
            games_of_player(games, who)
        }),
{
    assert(games.push(g).drop_last() =~= games);
    assert(games.push(g).last() == g);
}

// ---------------------------------------------------------------------
// Facts about the escrow sum.
// ---------------------------------------------------------------------
/// The escrow sum is never negative.
pub proof fn lemma_pool_of_nonneg(games: Seq<Game>)
    ensures
        pool_of(games) >= 0,
    decreases games.len(),
{
    if games.len() > 0 {
        lemma_pool_of_nonneg(games.drop_last());
    }
}

/// Appending a match adds exactly its contribution.
pub proof fn lemma_pool_of_push(games: Seq<Game>, g: Game)
    ensures
        pool_of(games.push(g)) == pool_of(games) + stake_contribution(g),
{
    assert(games.push(g).drop_last() =~= games);
    assert(games.push(g).last() == g);
}

/// Replacing one match shifts the sum by the difference of the two
/// contributions.
pub proof fn lemma_pool_of_update(games: Seq<Game>, i: int, g: Game)
    requires
        0 <= i < games.len(),
    ensures
        pool_of(games.update(i, g)) == pool_of(games) - stake_contribution(games[i])
            + stake_contribution(g),
    decreases games.len(),
{
    let t = games.update(i, g);
    if i == games.len() - 1 {
        assert(t.drop_last() =~= games.drop_last());
        assert(t.last() == g);
    } else {
        assert(t.drop_last() =~= games.drop_last().update(i, g));
        assert(t.last() == games.last());
        lemma_pool_of_update(games.drop_last(), i, g);
        assert(games.drop_last()[i] == games[i]);
    }
}

/// The escrow sum covers each single match's contribution.
pub proof fn lemma_pool_of_lower_bound(games: Seq<Game>, i: int)
    requires
        0 <= i < games.len(),
    ensures
        pool_of(games) >= stake_contribution(games[i]),
    decreases games.len(),
{
    if i == games.len() - 1 {
        lemma_pool_of_nonneg(games.drop_last());
    } else {
        lemma_pool_of_lower_bound(games.drop_last(), i);
        assert(games.drop_last()[i] == games[i]);
    }
}

/// Index of the statistics row for `who`, if one exists.
fn find_stats(entries: &Vec<StatsEntry>, who: &String) -> (r: Option<usize>)
    ensures
        match r {
            Some(i) => i < entries@.len() && entries@[i as int].player@ == who@,
            None => !has_stats(entries@, who@),
        },
{
    let n = entries.len();
    let mut i: usize = 0;
    let mut res: Option<usize> = None;
    while i < n
        invariant
            i <= n,
            n == entries@.len(),
            match res {
                Some(j) => j < entries@.len() && entries@[j as int].player@ == who@,
                None => forall|k: int| 0 <= k < i ==> (#[trigger] entries@[k].player)@ != who@,
            },
        decreases n - i,
    {
        if res.is_none() && entries[i].player == *who {
            res = Some(i);
        }
        i = i + 1;
    }
    res
}

/// One participant's counters after a settlement, as `settle_one`
/// prescribes: clamped, never panicking.
fn settle_stats(st: PlayerStats, stake: u128, winner: &Option<String>, me: &String) -> (r:
    PlayerStats)
    ensures
        r == settle_one(st, stake, opt_view(*winner), me@),
{
    let mut r = st;
    r.games_played = r.games_played.saturating_add(1);
    match winner {
        Some(w) => {
            if *w == *me {
                r.wins = r.wins.saturating_add(1);
                r.tokens_won = r.tokens_won.saturating_add(stake);
            } else {
                r.losses = r.losses.saturating_add(1);
                r.tokens_lost = r.tokens_lost.saturating_add(stake);
            }
        },
        None => {},
    }
    r
}

impl AirHockeyState {
    /// Fold one settlement into one participant's row, creating the row
    /// lazily from the zero record. Touches nothing but the statistics
    /// table.
    fn apply_settlement(&mut self, who: &String, stake: u128, winner: &Option<String>)
        requires
            stats_keys_unique(old(self).player_stats@),
        ensures
            stats_keys_unique(final(self).player_stats@),
            stats_of(final(self).player_stats@, who@) == settle_one(
                stats_of(old(self).player_stats@, who@),
                stake,
                opt_view(*winner),
                who@,
            ),
            forall|p: Seq<char>|
                p != who@ ==> #[trigger] stats_of(final(self).player_stats@, p) == stats_of(
                    old(self).player_stats@,
                    p,
                ),
            final(self).games@ == old(self).games@,
            final(self).next_game_id == old(self).next_game_id,
            final(self).total_stake_pool == old(self).total_stake_pool,
            final(self).owner == old(self).owner,
    {
        let found = find_stats(&self.player_stats, who);
        match found {
            Some(i) => {
                let updated = settle_stats(self.player_stats[i].stats, stake, winner, who);
                proof {
                    lemma_stats_of_at(self.player_stats@, who@, i as int);
                    let e = StatsEntry { stats: updated, ..self.player_stats@[i as int] };
                    lemma_unique_update(self.player_stats@, i as int, e);
                    assert forall|p: Seq<char>| p != who@ implies stats_of(
                        self.player_stats@.update(i as int, e),
                        p,
                    ) == stats_of(self.player_stats@, p) by {
                        lemma_stats_of_update(self.player_stats@, i as int, e, p);
                    }
                    lemma_stats_of_at(self.player_stats@.update(i as int, e), who@, i as int);
                }
                let entry = &mut self.player_stats[i];
                entry.stats = updated;
            },
            None => {
                let fresh = settle_stats(
                    PlayerStats {
                        games_played: 0,
                        wins: 0,
                        losses: 0,
                        tokens_won: 0,
                        tokens_lost: 0,
                    },
                    stake,
                    winner,
                    who,
                );
                let row = StatsEntry { player: who.clone(), stats: fresh };
                proof {
                    lemma_unique_push(self.player_stats@, row);
                    assert forall|p: Seq<char>| p != who@ implies stats_of(
                        self.player_stats@.push(row),
                        p,
                    ) == stats_of(self.player_stats@, p) by {
                        lemma_stats_of_push(self.player_stats@, row, p);
                    }
                    lemma_stats_of_push(self.player_stats@, row, who@);
                }
                self.player_stats.push(row);
            },
        }
    }

    /// A fresh, empty ledger with no owner recorded yet.
    pub fn new() -> (r: Self)
        ensures
            r.wf(),
            r.next_game_id == 1,
            r.games@.len() == 0,
            r.player_stats@.len() == 0,
            r.total_stake_pool == 0,
            r.owner@ == Seq::<char>::empty(),
    {
        AirHockeyState {
            next_game_id: 1,
            games: Vec::new(),
            player_stats: Vec::new(),
            total_stake_pool: 0,
            owner: String::new(),
        }
    }

    /// Record the instance owner, which is set once and immutable
    /// thereafter: once an owner stands, any further initialization is
    /// refused as `AlreadyInitialized` and the ledger is untouched — no
    /// owner change, no discarded matches or escrow, no reused
    /// identifiers. On the one successful call the ledger is in its
    /// initial state: counter at 1, nothing escrowed, no matches, no
    /// statistics.
    pub fn initialize(&mut self, owner: String) -> (r: Result<(), ContractError>)
        requires
            old(self).wf(),
        ensures
            final(self).wf(),
            match r {
                Ok(_) => {
                    &&& !old(self).is_initialized()
                    &&& final(self).owner == owner
                    &&& final(self).next_game_id == 1
                    &&& final(self).games@.len() == 0
                    &&& final(self).player_stats@.len() == 0
                    &&& final(self).total_stake_pool == 0
                },
                Err(e) => {
                    &&& old(self).is_initialized()
                    &&& e == ContractError::AlreadyInitialized
                    &&& state_eq(*final(self), *old(self))
                },
            },
    {
        if !self.owner.as_str().is_empty() {
            return Err(ContractError::AlreadyInitialized);
        }
        self.owner = owner;
        self.next_game_id = 1;
        self.total_stake_pool = 0;
        self.games = Vec::new();
        self.player_stats = Vec::new();
        Ok(())
    }

    /// Take the next fresh identifier and advance the counter. Touches
    /// nothing else; `create_game` is its caller and restores the tie
    /// between the counter and the number of matches by inserting the
    /// new record under the returned identifier.
    pub fn get_next_game_id(&mut self) -> (id: u64)
        requires
            old(self).next_game_id < u64::MAX,
        ensures
            id == old(self).next_game_id,
            final(self).next_game_id == old(self).next_game_id + 1,
            final(self).games@ == old(self).games@,
            final(self).player_stats@ == old(self).player_stats@,
            final(self).total_stake_pool == old(self).total_stake_pool,
            final(self).owner == old(self).owner,
    {
        let id = self.next_game_id;
        self.next_game_id = id + 1;
        id
    }

    /// Create a new match in the waiting state with the caller's stake
    /// escrowed. The stake itself is not validated here: escrow success
    /// is the caller-facing operation's precondition. Fails only when the
    /// identifier counter or the escrow pool would overflow; on failure
    /// the ledger is untouched.
    pub fn create_game(&mut self, creator: String, stake: u128, room_code: String, timestamp: u64) -> (r: Result<
        u64,
        ContractError,
    >)
        requires
            old(self).wf(),
        ensures
            final(self).wf(),
            match r {
                Ok(id) => {
                    &&& create_check(
                        old(self).next_game_id,
                        old(self).total_stake_pool as int,
                        stake,
                    ) is None
                    &&& id == old(self).next_game_id
                    &&& final(self).games@ == old(self).games@.push(
                        new_game(id, creator, stake, room_code, timestamp),
                    )
                    &&& final(self).next_game_id == old(self).next_game_id + 1
                    &&& final(self).total_stake_pool as int == old(self).total_stake_pool + stake
                    &&& final(self).player_stats@ == old(self).player_stats@
                    &&& final(self).owner@ == old(self).owner@
                },
                Err(e) => {
                    &&& create_check(
                        old(self).next_game_id,
                        old(self).total_stake_pool as int,
                        stake,
                    ) == Some(e)
                    &&& state_eq(*final(self), *old(self))
                },
            },
    {
        if self.next_game_id == u64::MAX {
            return Err(ContractError::InvariantViolation);
        }
        if stake > u128::MAX - self.total_stake_pool {
            return Err(ContractError::InvariantViolation);
        }
        let id = self.get_next_game_id();
        let game = Game::new(id, creator, stake, room_code, timestamp);
        proof {
            lemma_pool_of_push(self.games@, game);
        }
        self.games.push(game);
        self.total_stake_pool = self.total_stake_pool + stake;
        Ok(id)
    }

    /// Join a waiting match as its opponent, escrowing a matching stake.
    /// The match becomes active. Fails on an unknown id, a match that is
    /// not open, a creator joining their own match, or pool overflow; on
    /// failure the ledger is untouched.
    pub fn join_game(&mut self, game_id: u64, opponent: String, timestamp: u64) -> (r: Result<
        (),
        ContractError,
    >)
        requires
            old(self).wf(),
        ensures
            final(self).wf(),
            match r {
                Ok(_) => {
                    &&& join_check(
                        old(self).games@,
                        old(self).total_stake_pool as int,
                        game_id,
                        opponent@,
                    ) is None
                    &&& final(self).games@ == join_apply(
                        old(self).games@,
                        game_id,
                        opponent,
                        timestamp,
                    )
                    &&& final(self).total_stake_pool as int == old(self).total_stake_pool + old(
                        self,
                    ).games@[game_id - 1].stake
                    &&& final(self).next_game_id == old(self).next_game_id
                    &&& final(self).player_stats@ == old(self).player_stats@
                    &&& final(self).owner@ == old(self).owner@
                },
                Err(e) => {
                    &&& join_check(
                        old(self).games@,
                        old(self).total_stake_pool as int,
                        game_id,
                        opponent@,
                    ) == Some(e)
                    &&& state_eq(*final(self), *old(self))
                },
            },
    {
        if game_id == 0 || game_id > self.games.len() as u64 {
            return Err(ContractError::NotFound);
        }
        let idx = (game_id - 1) as usize;
        if !self.games[idx].can_join() {
            return Err(ContractError::InvalidState);
        }
        if self.games[idx].creator == opponent {
            return Err(ContractError::SelfJoin);
        }
        let stake = self.games[idx].stake;
        if stake > u128::MAX - self.total_stake_pool {
            return Err(ContractError::InvariantViolation);
        }
        proof {
            lemma_pool_of_lower_bound(self.games@, idx as int);
            lemma_pool_of_update(
                self.games@,
                idx as int,
                Game {
                    opponent: Some(opponent),
                    status: GameStatus::Active,
                    started_at: Some(timestamp),
                    ..self.games@[idx as int]
                },
            );
        }
        let g = &mut self.games[idx];
        g.opponent = Some(opponent);
        g.status = GameStatus::Active;
        g.started_at = Some(timestamp);
        self.total_stake_pool = self.total_stake_pool + stake;
        Ok(())
    }

    /// Cancel a waiting match. Only the creator may cancel, and only
    /// before an opponent joined. Returns the stake to refund to the
    /// creator; on failure the ledger is untouched.
    pub fn cancel_game(&mut self, game_id: u64, caller: &String, timestamp: u64) -> (r: Result<
        u128,
        ContractError,
    >)
        requires
            old(self).wf(),
        ensures
            final(self).wf(),
            match r {
                Ok(refund) => {
                    &&& cancel_check(old(self).games@, game_id, caller@) is None
                    &&& refund == old(self).games@[game_id - 1].stake
                    &&& final(self).games@ == cancel_apply(old(self).games@, game_id, timestamp)
                    &&& final(self).total_stake_pool as int == old(self).total_stake_pool - refund
                    &&& final(self).next_game_id == old(self).next_game_id
                    &&& final(self).player_stats@ == old(self).player_stats@
                    &&& final(self).owner@ == old(self).owner@
                },
                Err(e) => {
                    &&& cancel_check(old(self).games@, game_id, caller@) == Some(e)
                    &&& state_eq(*final(self), *old(self))
                },
            },
    {
        if game_id == 0 || game_id > self.games.len() as u64 {
            return Err(ContractError::NotFound);
        }
        let idx = (game_id - 1) as usize;
        if self.games[idx].status != GameStatus::Waiting {
            return Err(ContractError::InvalidState);
        }
        if !(self.games[idx].creator == *caller) {
            return Err(ContractError::NotAuthorized);
        }
        let refund = self.games[idx].stake;
        proof {
            lemma_pool_of_lower_bound(self.games@, idx as int);
            lemma_pool_of_update(
                self.games@,
                idx as int,
                Game {
                    status: GameStatus::Cancelled,
                    ended_at: Some(timestamp),
                    ..self.games@[idx as int]
                },
            );
        }
        let g = &mut self.games[idx];
        g.status = GameStatus::Cancelled;
        g.ended_at = Some(timestamp);
        self.total_stake_pool = self.total_stake_pool.saturating_sub(refund);
        Ok(refund)
    }

    /// Fold one completed match into both participants' statistics rows:
    /// each played one more match; a decisive winner gains a win and the
    /// stake, the other side a loss and the stake; a draw moves nothing
    /// but the played counters.
    pub fn update_player_stats(&mut self, game: &Game)
        requires
            old(self).wf(),
            game_wf(*game),
            game.status == GameStatus::Completed,
        ensures
            final(self).wf(),
            final(self).games@ == old(self).games@,
            final(self).next_game_id == old(self).next_game_id,
            final(self).total_stake_pool == old(self).total_stake_pool,
            final(self).owner == old(self).owner,
            stats_of(final(self).player_stats@, game.creator@) == settle_one(
                stats_of(old(self).player_stats@, game.creator@),
                game.stake,
                opt_view(game.winner),
                game.creator@,
            ),
            stats_of(final(self).player_stats@, game.opponent->0@) == settle_one(
                stats_of(old(self).player_stats@, game.opponent->0@),
                game.stake,
                opt_view(game.winner),
                game.opponent->0@,
            ),
            forall|p: Seq<char>|
                p != game.creator@ && p != game.opponent->0@ ==> #[trigger] stats_of(
                    final(self).player_stats@,
                    p,
                ) == stats_of(old(self).player_stats@, p),
    {
        let winner = match &game.winner {
            Some(w) => Some(w.clone()),
            None => None,
        };
        self.apply_settlement(&game.creator, game.stake, &winner);
        match &game.opponent {
            Some(o) => {
                self.apply_settlement(o, game.stake, &winner);
            },
            None => {},
        }
    }

    /// Settle an active match: record the scores, resolve the winner,
    /// complete the match, release the pot from escrow and fold the
    /// outcome into both participants' statistics. Only a participant
    /// may submit, and only while the match is active. Returns the
    /// winner (`None` on a draw) and the released pot, `2 * stake`; on
    /// failure the ledger is untouched.
    pub fn submit_result(
        &mut self,
        game_id: u64,
        player1_score: u8,
        player2_score: u8,
        caller: &String,
        timestamp: u64,
    ) -> (r: Result<(Option<String>, u128), ContractError>)
        requires
            old(self).wf(),
        ensures
            final(self).wf(),
            match r {
                Ok(outcome) => {
                    &&& submit_check(old(self).games@, game_id, caller@) is None
                    &&& final(self).games@ == submit_apply(
                        old(self).games@,
                        game_id,
                        player1_score,
                        player2_score,
                        timestamp,
                    )
                    &&& outcome.0 == winner_of(
                        old(self).games@[game_id - 1],
                        player1_score,
                        player2_score,
                    )
                    &&& outcome.1 == 2 * old(self).games@[game_id - 1].stake
                    &&& final(self).total_stake_pool as int == old(self).total_stake_pool - 2 * old(
                        self,
                    ).games@[game_id - 1].stake
                    &&& final(self).next_game_id == old(self).next_game_id
                    &&& final(self).owner@ == old(self).owner@
                    &&& ({
                        let g = old(self).games@[game_id - 1];
                        let w = opt_view(winner_of(g, player1_score, player2_score));
                        &&& stats_of(final(self).player_stats@, g.creator@) == settle_one(
                            stats_of(old(self).player_stats@, g.creator@),
                            g.stake,
                            w,
                            g.creator@,
                        )
                        &&& stats_of(final(self).player_stats@, g.opponent->0@) == settle_one(
                            stats_of(old(self).player_stats@, g.opponent->0@),
                            g.stake,
                            w,
                            g.opponent->0@,
                        )
                        &&& forall|p: Seq<char>|
                            p != g.creator@ && p != g.opponent->0@ ==> #[trigger] stats_of(
                                final(self).player_stats@,
                                p,
                            ) == stats_of(old(self).player_stats@, p)
                    })
                },
                Err(e) => {
                    &&& submit_check(old(self).games@, game_id, caller@) == Some(e)
                    &&& state_eq(*final(self), *old(self))
                },
            },
    {
        if game_id == 0 || game_id > self.games.len() as u64 {
            return Err(ContractError::NotFound);
        }
        let idx = (game_id - 1) as usize;
        if !self.games[idx].is_active() {
            return Err(ContractError::InvalidState);
        }
        let creator_submits = self.games[idx].creator == *caller;
        let opponent_submits = match &self.games[idx].opponent {
            Some(o) => *o == *caller,
            None => false,
        };
        if !(creator_submits || opponent_submits) {
            return Err(ContractError::NotAuthorized);
        }
        let stake = self.games[idx].stake;
        let winner: Option<String> = if player1_score > player2_score {
            Some(self.games[idx].creator.clone())
        } else if player2_score > player1_score {
            match &self.games[idx].opponent {
                Some(o) => Some(o.clone()),
                None => None,
            }
        } else {
            None
        };
        proof {
            lemma_pool_of_lower_bound(self.games@, idx as int);
            lemma_pool_of_update(
                self.games@,
                idx as int,
                Game {
                    status: GameStatus::Completed,
                    winner: winner_of(self.games@[idx as int], player1_score, player2_score),
                    ended_at: Some(timestamp),
                    player1_score: player1_score,
                    player2_score: player2_score,
                    ..self.games@[idx as int]
                },
            );
        }
        let winner_recorded = match &winner {
            Some(w) => Some(w.clone()),
            None => None,
        };
        let g = &mut self.games[idx];
        g.player1_score = player1_score;
        g.player2_score = player2_score;
        g.status = GameStatus::Completed;
        g.ended_at = Some(timestamp);
        g.winner = winner_recorded;
        self.total_stake_pool = self.total_stake_pool.saturating_sub(stake * 2);
        let settled = self.games[idx].clone();
        self.update_player_stats(&settled);
        Ok((winner, stake * 2))
    }

    /// The match with the given identifier, if one was ever created.
    pub fn get_game(&self, game_id: u64) -> (r: Option<Game>)
        ensures
            match r {
                Some(g) => valid_id(self.games@, game_id) && g == self.games@[game_id - 1],
                None => !valid_id(self.games@, game_id),
            },
    {
        if game_id == 0 || game_id > self.games.len() as u64 {
            return None;
        }
        let idx = (game_id - 1) as usize;
        Some(self.games[idx].clone())
    }

    /// The statistics row for `player`; `None` for an identity no
    /// settlement ever touched.
    pub fn get_player_stats(&self, player: &String) -> (r: Option<PlayerStats>)
        requires
            stats_keys_unique(self.player_stats@),
        ensures
            match r {
                Some(st) => has_stats(self.player_stats@, player@) && st == stats_of(
                    self.player_stats@,
                    player@,
                ),
                None => !has_stats(self.player_stats@, player@),
            },
    {
        let found = find_stats(&self.player_stats, player);
        match found {
            Some(i) => {
                proof {
                    lemma_stats_of_at(self.player_stats@, player@, i as int);
                }
                Some(self.player_stats[i].stats)
            },
            None => None,
        }
    }

    /// All matches waiting for an opponent, ascending by identifier.
    pub fn get_open_games(&self) -> (r: Vec<Game>)
        ensures
            r@ == waiting_games(self.games@),
    {
        let n = self.games.len();
        let mut out: Vec<Game> = Vec::new();
        let mut i: usize = 0;
        while i < n
            invariant
                i <= n,
                n == self.games@.len(),
                out@ == waiting_games(self.games@.subrange(0, i as int)),
            decreases n - i,
        {
            proof {
                assert(self.games@.subrange(0, i + 1 as int) =~= self.games@.subrange(
                    0,
                    i as int,
                ).push(self.games@[i as int]));
                lemma_waiting_games_push(
                    self.games@.subrange(0, i as int),
                    self.games@[i as int],
                );
            }
            if self.games[i].status == GameStatus::Waiting {
                out.push(self.games[i].clone());
            }
            i = i + 1;
        }
        proof {
            assert(self.games@.subrange(0, n as int) =~= self.games@);
        }
        out
    }

    /// All matches `player` takes part in, ascending by identifier.
    pub fn get_player_games(&self, player: &String) -> (r: Vec<Game>)
        ensures
            r@ == games_of_player(self.games@, player@),
    {
        let n = self.games.len();
        let mut out: Vec<Game> = Vec::new();
        let mut i: usize = 0;
        while i < n
            invariant
                i <= n,
                n == self.games@.len(),
                out@ == games_of_player(self.games@.subrange(0, i as int), player@),
            decreases n - i,
        {
            proof {
                assert(self.games@.subrange(0, i + 1 as int) =~= self.games@.subrange(
                    0,
                    i as int,
                ).push(self.games@[i as int]));
                lemma_games_of_player_push(
                    self.games@.subrange(0, i as int),
                    self.games@[i as int],
                    player@,
                );
            }
            let in_game = self.games[i].creator == *player || (match &self.games[i].opponent {
                Some(o) => *o == *player,
                None => false,
            });
            if in_game {
                out.push(self.games[i].clone());
            }
            i = i + 1;
        }
        proof {
            assert(self.games@.subrange(0, n as int) =~= self.games@);
        }
        out
    }
}

} // verus!
