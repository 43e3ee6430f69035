//! General properties of the engine, stated once over the validation
//! and transition functions that the operations' contracts use.

use vstd::prelude::*;

use crate::errors::ContractError;
use crate::game::Game;
use crate::game::GameStatus;
use crate::state::AirHockeyState;
use crate::state::cancel_apply;
use crate::state::cancel_check;
use crate::state::ids_sequential;
use crate::state::pool_of;
use crate::state::submit_apply;
use crate::state::submit_check;
use crate::state::valid_id;
use crate::state::waiting_games;

verus! {

/// The escrow bookkeeping law: in every well-formed ledger the recorded
/// pool equals the sum of one stake per waiting match and two stakes per
/// active match. Every operation requires and re-establishes
/// well-formedness, so this holds at all times.
pub proof fn lemma_pool_matches_escrow(s: AirHockeyState)
    requires
        s.wf(),
    ensures
        s.total_stake_pool as int == pool_of(s.games@),
{
}

/// Cancelling twice: once a cancellation of a match succeeded, any
/// further cancellation of it — by anyone, at any time — is refused as
/// `InvalidState`; by `cancel_game`'s contract the refused call moves no
/// funds and changes nothing.
pub proof fn lemma_cancel_twice(
    games: Seq<Game>,
    game_id: u64,
    caller: Seq<char>,
    caller2: Seq<char>,
    t1: u64,
)
    requires
        cancel_check(games, game_id, caller) is None,
    ensures
        cancel_check(cancel_apply(games, game_id, t1), game_id, caller2) == Some(
            ContractError::InvalidState,
        ),
{
}

/// Submitting twice: once a settlement of a match succeeded, any
/// further submission for it — by anyone, with any scores — is refused
/// as `InvalidState`; by `submit_result`'s contract the refused call
/// moves no funds and changes neither ledger nor statistics.
pub proof fn lemma_submit_twice(
    games: Seq<Game>,
    game_id: u64,
    caller: Seq<char>,
    caller2: Seq<char>,
    score1: u8,
    score2: u8,
    t1: u64,
)
    requires
        submit_check(games, game_id, caller) is None,
    ensures
        submit_check(submit_apply(games, game_id, score1, score2, t1), game_id, caller2) == Some(
            ContractError::InvalidState,
        ),
{
}

/// Authorization of cancellation: anyone but the creator is refused as
/// `NotAuthorized` on a waiting match; by `cancel_game`'s contract the
/// ledger is then left unchanged.
pub proof fn lemma_cancel_requires_creator(games: Seq<Game>, game_id: u64, caller: Seq<char>)
    requires
        valid_id(games, game_id),
        games[game_id - 1].status == GameStatus::Waiting,
        caller != games[game_id - 1].creator@,
    ensures
        cancel_check(games, game_id, caller) == Some(ContractError::NotAuthorized),
{
}

/// Authorization of settlement: a caller who is neither participant is
/// refused as `NotAuthorized` on an active match; by `submit_result`'s
/// contract the ledger is then left unchanged.
pub proof fn lemma_submit_requires_participant(games: Seq<Game>, game_id: u64, caller: Seq<char>)
    requires
        valid_id(games, game_id),
        games[game_id - 1].status == GameStatus::Active,
        caller != games[game_id - 1].creator@,
        games[game_id - 1].opponent matches Some(o) ==> caller != o@,
    ensures
        submit_check(games, game_id, caller) == Some(ContractError::NotAuthorized),
{
}

/// The open-match list law: under the registry's identifier layout the
/// list holds waiting matches only, their identifiers strictly ascend,
/// and every waiting match appears in it.
pub proof fn lemma_open_games_ordered(games: Seq<Game>)
    requires
        ids_sequential(games),
    ensures
        forall|k: int|
            0 <= k < waiting_games(games).len() ==> (#[trigger] waiting_games(games)[k]).status
                == GameStatus::Waiting,
        forall|k: int|
            0 <= k < waiting_games(games).len() ==> 1 <= (#[trigger] waiting_games(games)[k]).id
                <= games.len(),
        forall|k1: int, k2: int|
            0 <= k1 < k2 < waiting_games(games).len() ==> (#[trigger] waiting_games(games)[k1]).id
                < (#[trigger] waiting_games(games)[k2]).id,
        forall|i: int|
            0 <= i < games.len() && (#[trigger] games[i]).status == GameStatus::Waiting
                ==> waiting_games(games).contains(games[i]),
    decreases games.len(),
{
    let wg = waiting_games(games);
    if games.len() > 0 {
        let prefix = games.drop_last();
        assert(ids_sequential(prefix)) by {
            assert forall|i: int| 0 <= i < prefix.len() implies (#[trigger] prefix[i]).id == i
                + 1 by {
                assert(prefix[i] == games[i]);
            }
        }
        lemma_open_games_ordered(prefix);
        let wp = waiting_games(prefix);
        let last = games.last();
        if last.status == GameStatus::Waiting {
            assert(wg == wp.push(last));
            assert(last.id == games.len());
            assert forall|i: int|
                0 <= i < games.len() && (#[trigger] games[i]).status
                    == GameStatus::Waiting implies wg.contains(games[i]) by {
                if i < games.len() - 1 {
                    assert(prefix[i] == games[i]);
                    assert(wp.contains(games[i]));
                    let k = choose|k: int| 0 <= k < wp.len() && wp[k] == games[i];
                    assert(wg[k] == games[i]);
                } else {
                    assert(wg[wp.len() as int] == games[i]);
                }
            }
        } else {
            assert(wg == wp);
            assert forall|i: int|
                0 <= i < games.len() && (#[trigger] games[i]).status
                    == GameStatus::Waiting implies wg.contains(games[i]) by {
                assert(i < games.len() - 1);
                assert(prefix[i] == games[i]);
            }
        }
    }
}

} // verus!
