//! Cumulative per-player statistics derived from settled matches.

use vstd::prelude::*;

verus! {

/// Counters accumulated for one player over all their settled matches.
/// All fields are monotonically non-decreasing; the token accumulators
/// saturate at `u128::MAX` instead of overflowing.
#[derive(Debug, Clone, Copy, PartialEq, Eq, Structural)]
pub struct PlayerStats {
    /// Total settled matches this player took part in.
    pub games_played: u64,
    /// Matches won.
    pub wins: u64,
    /// Matches lost.
    pub losses: u64,
    /// Total tokens won (one stake per decisive win).
    pub tokens_won: u128,
    /// Total tokens lost (one stake per decisive loss).
    pub tokens_lost: u128,
}

/// One row of the statistics table: a player identity and its counters.
#[derive(Debug)]
pub struct StatsEntry {
    /// Player identity this row belongs to.
    pub player: String,
    /// The accumulated counters.
    pub stats: PlayerStats,
}

/// The zero-valued record that a never-seen identity yields.
pub open spec fn zero_stats() -> PlayerStats {
    PlayerStats { games_played: 0, wins: 0, losses: 0, tokens_won: 0, tokens_lost: 0 }
}

/// Addition on `u64` clamped at the maximum.
pub open spec fn sat_add64(a: u64, b: u64) -> u64 {
    if a + b > u64::MAX {
        u64::MAX
    } else {
        (a + b) as u64
    }
}

/// Addition on `u128` clamped at the maximum.
pub open spec fn sat_add128(a: u128, b: u128) -> u128 {
    if a + b > u128::MAX {
        u128::MAX
    } else {
        (a + b) as u128
    }
}

/// How one settlement changes one participant's counters. `winner` is the
/// settled match's winner field (by content), `me` the participant's
/// identity: played always increments; a win adds the stake to the tokens
/// won; a loss (someone else won) adds it to the tokens lost; a draw
/// changes neither wins, losses nor tokens.
pub open spec fn settle_one(st: PlayerStats, stake: u128, winner: Option<Seq<char>>, me: Seq<
    char,
>) -> PlayerStats {
    let played = PlayerStats { games_played: sat_add64(st.games_played, 1), ..st };
    match winner {
        Some(w) => if w == me {
            PlayerStats {
                wins: sat_add64(played.wins, 1),
                tokens_won: sat_add128(played.tokens_won, stake),
                ..played
            }
        } else {
            PlayerStats {
                losses: sat_add64(played.losses, 1),
                tokens_lost: sat_add128(played.tokens_lost, stake),
                ..played
            }
        },
        None => played,
    }
}

/// Whether the table holds a row for `who`.
pub open spec fn has_stats(s: Seq<StatsEntry>, who: Seq<char>) -> bool {
    exists|i: int| 0 <= i < s.len() && s[i].player@ == who
}

/// The counters the table yields for `who`: the stored row if one exists,
/// the zero record otherwise.
pub open spec fn stats_of(s: Seq<StatsEntry>, who: Seq<char>) -> PlayerStats {
    if has_stats(s, who) {
        let i = choose|i: int| 0 <= i < s.len() && s[i].player@ == who;
        s[i].stats
    } else {
        zero_stats()
    }
}

/// No two rows share an identity.
pub open spec fn stats_keys_unique(s: Seq<StatsEntry>) -> bool {
    forall|i: int, j: int|
        0 <= i < j < s.len() ==> (#[trigger] s[i].player)@ != (#[trigger] s[j].player)@
}

/// Under unique keys, the row at a matching index is the row the table
/// yields.
pub proof fn lemma_stats_of_at(s: Seq<StatsEntry>, who: Seq<char>, i: int)
    requires
        stats_keys_unique(s),
        0 <= i < s.len(),
        s[i].player@ == who,
    ensures
        has_stats(s, who),
        stats_of(s, who) == s[i].stats,
{
    assert(has_stats(s, who));
    let j = choose|j: int| 0 <= j < s.len() && s[j].player@ == who;
    if i < j {
        assert(s[i].player@ != s[j].player@);
    } else if j < i {
        assert(s[j].player@ != s[i].player@);
    }
}

/// Updating a row without changing its identity keeps keys unique.
pub proof fn lemma_unique_update(s: Seq<StatsEntry>, i: int, e: StatsEntry)
    requires
        stats_keys_unique(s),
        0 <= i < s.len(),
        e.player@ == s[i].player@,
    ensures
        stats_keys_unique(s.update(i, e)),
{
    let t = s.update(i, e);
    assert forall|p: int, q: int| 0 <= p < q < t.len() implies (#[trigger] t[p].player)@
        != (#[trigger] t[q].player)@ by {
        assert(s[p].player@ != s[q].player@);
    }
}

/// Appending a row with a fresh identity keeps keys unique.
pub proof fn lemma_unique_push(s: Seq<StatsEntry>, e: StatsEntry)
    requires
        stats_keys_unique(s),
        !has_stats(s, e.player@),
    ensures
        stats_keys_unique(s.push(e)),
{
    let t = s.push(e);
    assert forall|p: int, q: int| 0 <= p < q < t.len() implies (#[trigger] t[p].player)@
        != (#[trigger] t[q].player)@ by {
        if q < s.len() {
            assert(s[p].player@ != s[q].player@);
        } else {
            assert(t[q] == e);
            assert(0 <= p < s.len() && s[p].player@ == e.player@ ==> has_stats(s, e.player@));
        }
    }
}

/// Updating the row at index `i` without changing its identity leaves
/// every other identity's counters as they were, and keeps keys unique.
pub proof fn lemma_stats_of_update(s: Seq<StatsEntry>, i: int, e: StatsEntry, who: Seq<char>)
    requires
        stats_keys_unique(s),
        0 <= i < s.len(),
        e.player@ == s[i].player@,
        who != e.player@,
    ensures
        stats_keys_unique(s.update(i, e)),
        stats_of(s.update(i, e), who) == stats_of(s, who),
        has_stats(s.update(i, e), who) == has_stats(s, who),
{
    let t = s.update(i, e);
    assert forall|p: int, q: int| 0 <= p < q < t.len() implies (#[trigger] t[p].player)@
        != (#[trigger] t[q].player)@ by {
        assert(s[p].player@ != s[q].player@);
    }
    if has_stats(s, who) {
        let j = choose|j: int| 0 <= j < s.len() && s[j].player@ == who;
        assert(t[j].player@ == who);
        lemma_stats_of_at(s, who, j);
        lemma_stats_of_at(t, who, j);
    } else {
        if has_stats(t, who) {
            let j = choose|j: int| 0 <= j < t.len() && t[j].player@ == who;
            assert(s[j].player@ == who);
        }
    }
}

/// Appending a row with a fresh identity keeps keys unique, yields that
/// row for its identity, and leaves every other identity unchanged.
pub proof fn lemma_stats_of_push(s: Seq<StatsEntry>, e: StatsEntry, who: Seq<char>)
    requires
        stats_keys_unique(s),
        !has_stats(s, e.player@),
    ensures
        stats_keys_unique(s.push(e)),
        stats_of(s.push(e), e.player@) == e.stats,
        who != e.player@ ==> stats_of(s.push(e), who) == stats_of(s, who),
        who != e.player@ ==> has_stats(s.push(e), who) == has_stats(s, who),
{
    let t = s.push(e);
    assert forall|p: int, q: int| 0 <= p < q < t.len() implies (#[trigger] t[p].player)@
        != (#[trigger] t[q].player)@ by {
        if q < s.len() {
            assert(s[p].player@ != s[q].player@);
        } else {
            assert(t[q] == e);
            assert(0 <= p < s.len() && s[p].player@ == e.player@ ==> has_stats(s, e.player@));
        }
    }
    lemma_stats_of_at(t, e.player@, s.len() as int);
    if who != e.player@ {
        if has_stats(s, who) {
            let j = choose|j: int| 0 <= j < s.len() && s[j].player@ == who;
            assert(t[j].player@ == who);
            lemma_stats_of_at(s, who, j);
            lemma_stats_of_at(t, who, j);
        } else {
            if has_stats(t, who) {
                let j = choose|j: int| 0 <= j < t.len() && t[j].player@ == who;
                assert(j != s.len());
                assert(s[j].player@ == who);
            }
        }
    }
}

} // verus!
