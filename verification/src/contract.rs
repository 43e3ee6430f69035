//! The caller-facing operations. Each operation validates everything,
//! applies the whole transition to the ledger, and hands back the escrow
//! transfers the host must perform together with the notification to
//! emit — one atomic step: on any failure the ledger is untouched and
//! nothing is to be transferred.

use vstd::prelude::*;

use crate::errors::ContractError;
use crate::game::new_game;
use crate::state::AirHockeyState;
use crate::state::cancel_apply;
use crate::state::cancel_check;
use crate::state::create_check;
use crate::state::join_apply;
use crate::state::join_check;
use crate::state::opt_view;
use crate::state::state_eq;
use crate::state::submit_apply;
use crate::state::submit_check;
use crate::state::winner_of;
use crate::stats::settle_one;
use crate::stats::stats_of;

verus! {

/// One state-changing request, as a caller submits it.
#[derive(Debug)]
pub enum Operation {
    /// Record the instance owner; refused once an owner stands.
    Initialize { owner: String },
    /// Create a new staked match.
    CreateGame { stake: u128, room_code: String },
    /// Join an existing match, matching its stake.
    JoinGame { game_id: u64 },
    /// Submit the final scores of an active match.
    SubmitResult { game_id: u64, player1_score: u8, player2_score: u8 },
    /// Cancel a waiting match for a refund.
    CancelGame { game_id: u64 },
    /// Kept for interface compatibility: settlement already releases the
    /// pot, so this request changes nothing.
    ClaimWinnings { game_id: u64 },
}

/// A fire-and-forget notification about a completed transition.
#[derive(Debug)]
pub enum Message {
    /// A match was created.
    GameCreated { game_id: u64, creator: String, stake: u128, room_code: String },
    /// An opponent joined a match.
    GameJoined { game_id: u64, opponent: String },
    /// A match settled, decisively or as a draw.
    GameCompleted { game_id: u64, winner: Option<String>, player1_score: u8, player2_score: u8 },
    /// A waiting match was cancelled.
    GameCancelled { game_id: u64 },
}

/// One escrow transfer the host must perform. A `None` endpoint names
/// the escrow account itself.
#[derive(Debug)]
pub struct TransferAction {
    /// Source of the funds; `None` for the escrow account.
    pub from: Option<String>,
    /// Destination of the funds; `None` for the escrow account.
    pub to: Option<String>,
    /// Amount to move.
    pub amount: u128,
}

/// Everything a successful operation asks of the host: the transfers to
/// perform and the notification to emit.
#[derive(Debug)]
pub struct OperationOutcome {
    /// Escrow transfers, to be performed in order.
    pub transfers: Vec<TransferAction>,
    /// The notification to emit, if any.
    pub message: Option<Message>,
}

/// A transfer of `amount` from `from` into the escrow account.
pub open spec fn is_escrow_debit(t: TransferAction, from: Seq<char>, amount: int) -> bool {
    &&& t.from matches Some(f) && f@ == from
    &&& t.to is None
    &&& t.amount == amount
}

/// A transfer of `amount` out of the escrow account to `to`.
pub open spec fn is_escrow_credit(t: TransferAction, to: Seq<char>, amount: int) -> bool {
    &&& t.from is None
    &&& t.to matches Some(x) && x@ == to
    &&& t.amount == amount
}

/// What initialization does: on a ledger with no owner yet, a fresh
/// ledger under the given owner, with nothing to transfer and nothing
/// to announce; once an owner stands, refused as `AlreadyInitialized`
/// with the ledger untouched — the owner is immutable and identifiers
/// are never reset.
pub open spec fn init_spec(
    pre: AirHockeyState,
    post: AirHockeyState,
    owner: String,
    r: Result<OperationOutcome, ContractError>,
) -> bool {
    if pre.is_initialized() {
        &&& r matches Err(e) && e == ContractError::AlreadyInitialized
        &&& state_eq(post, pre)
    } else {
        &&& r matches Ok(out) && out.transfers@.len() == 0 && out.message is None
        &&& post.owner == owner
        &&& post.next_game_id == 1
        &&& post.games@.len() == 0
        &&& post.player_stats@.len() == 0
        &&& post.total_stake_pool == 0
    }
}

/// What a creation request does: refused without funds or on counter or
/// pool overflow, leaving the ledger untouched; otherwise the new match
/// is appended under the next identifier, the stake joins the pool, the
/// caller's stake is debited into escrow and the creation is announced.
pub open spec fn create_spec(
    pre: AirHockeyState,
    post: AirHockeyState,
    caller: String,
    balance: u128,
    stake: u128,
    room_code: String,
    now: u64,
    r: Result<OperationOutcome, ContractError>,
) -> bool {
    if balance < stake {
        &&& r matches Err(e) && e == ContractError::InsufficientFunds
        &&& state_eq(post, pre)
    } else {
        match r {
            Ok(out) => {
                &&& create_check(pre.next_game_id, pre.total_stake_pool as int, stake) is None
                &&& post.games@ == pre.games@.push(
                    new_game(pre.next_game_id, caller, stake, room_code, now),
                )
                &&& post.next_game_id == pre.next_game_id + 1
                &&& post.total_stake_pool as int == pre.total_stake_pool + stake
                &&& post.player_stats@ == pre.player_stats@
                &&& post.owner@ == pre.owner@
                &&& out.transfers@.len() == 1
                &&& is_escrow_debit(out.transfers@[0], caller@, stake as int)
                &&& out.message matches Some(m)
                &&& m matches Message::GameCreated { game_id, creator, stake: st, room_code: rc }
                &&& game_id == pre.next_game_id
                &&& creator@ == caller@
                &&& st == stake
                &&& rc@ == room_code@
            },
            Err(e) => {
                &&& e == ContractError::InvariantViolation
                &&& create_check(pre.next_game_id, pre.total_stake_pool as int, stake) == Some(e)
                &&& state_eq(post, pre)
            },
        }
    }
}

/// What a join request does: an unknown id, a match not open, or the
/// creator joining themselves is refused before funds are looked at;
/// then missing funds, then pool overflow; each refusal leaves the
/// ledger untouched. Otherwise the caller becomes the opponent, the
/// match starts, the matching stake is debited into escrow and the join
/// is announced.
pub open spec fn join_spec(
    pre: AirHockeyState,
    post: AirHockeyState,
    caller: String,
    balance: u128,
    game_id: u64,
    now: u64,
    r: Result<OperationOutcome, ContractError>,
) -> bool {
    let check = join_check(pre.games@, pre.total_stake_pool as int, game_id, caller@);
    if check == Some(ContractError::NotFound) || check == Some(ContractError::InvalidState)
        || check == Some(ContractError::SelfJoin) {
        &&& r matches Err(e) && Some(e) == check
        &&& state_eq(post, pre)
    } else if balance < pre.games@[game_id - 1].stake {
        &&& r matches Err(e) && e == ContractError::InsufficientFunds
        &&& state_eq(post, pre)
    } else {
        match r {
            Ok(out) => {
                &&& check is None
                &&& post.games@ == join_apply(pre.games@, game_id, caller, now)
                &&& post.total_stake_pool as int == pre.total_stake_pool + pre.games@[game_id
                    - 1].stake
                &&& post.next_game_id == pre.next_game_id
                &&& post.player_stats@ == pre.player_stats@
                &&& post.owner@ == pre.owner@
                &&& out.transfers@.len() == 1
                &&& is_escrow_debit(
                    out.transfers@[0],
                    caller@,
                    pre.games@[game_id - 1].stake as int,
                )
                &&& out.message matches Some(m)
                &&& m matches Message::GameJoined { game_id: gid, opponent }
                &&& gid == game_id
                &&& opponent@ == caller@
            },
            Err(e) => {
                &&& e == ContractError::InvariantViolation
                &&& check == Some(e)
                &&& state_eq(post, pre)
            },
        }
    }
}

/// What a result submission does: refused on an unknown id, an inactive
/// match or a caller who is no participant, leaving the ledger
/// untouched. Otherwise the match completes with the given scores, the
/// pot leaves the pool, both participants' statistics absorb the
/// outcome, the host is told to pay the whole pot to the winner — or,
/// on a draw, each participant's stake back to them — and the
/// completion is announced.
pub open spec fn submit_spec(
    pre: AirHockeyState,
    post: AirHockeyState,
    caller: String,
    game_id: u64,
    score1: u8,
    score2: u8,
    now: u64,
    r: Result<OperationOutcome, ContractError>,
) -> bool {
    match submit_check(pre.games@, game_id, caller@) {
        Some(e0) => {
            &&& r matches Err(e) && e == e0
            &&& state_eq(post, pre)
        },
        None => {
            let g = pre.games@[game_id - 1];
            let w = winner_of(g, score1, score2);
            &&& r matches Ok(out)
            &&& post.games@ == submit_apply(pre.games@, game_id, score1, score2, now)
            &&& post.total_stake_pool as int == pre.total_stake_pool - 2 * g.stake
            &&& post.next_game_id == pre.next_game_id
            &&& post.owner@ == pre.owner@
            &&& stats_of(post.player_stats@, g.creator@) == settle_one(
                stats_of(pre.player_stats@, g.creator@),
                g.stake,
                opt_view(w),
                g.creator@,
            )
            &&& stats_of(post.player_stats@, g.opponent->0@) == settle_one(
                stats_of(pre.player_stats@, g.opponent->0@),
                g.stake,
                opt_view(w),
                g.opponent->0@,
            )
            &&& forall|p: Seq<char>|
                p != g.creator@ && p != g.opponent->0@ ==> #[trigger] stats_of(
                    post.player_stats@,
                    p,
                ) == stats_of(pre.player_stats@, p)
            &&& match opt_view(w) {
                Some(wv) => out.transfers@.len() == 1 && is_escrow_credit(
                    out.transfers@[0],
                    wv,
                    2 * g.stake,
                ),
                None => out.transfers@.len() == 2 && is_escrow_credit(
                    out.transfers@[0],
                    g.creator@,
                    g.stake as int,
                ) && is_escrow_credit(out.transfers@[1], g.opponent->0@, g.stake as int),
            }
            &&& out.message matches Some(m)
            &&& m matches Message::GameCompleted {
                game_id: gid,
                winner,
                player1_score: a,
                player2_score: b,
            }
            &&& gid == game_id
            &&& opt_view(winner) == opt_view(w)
            &&& a == score1
            &&& b == score2
        },
    }
}

/// What a cancellation does: refused on an unknown id, a match that is
/// not waiting, or a caller other than the creator, leaving the ledger
/// untouched. Otherwise the match is cancelled, its stake leaves the
/// pool, the host is told to refund it to the creator and the
/// cancellation is announced.
pub open spec fn cancel_spec(
    pre: AirHockeyState,
    post: AirHockeyState,
    caller: String,
    game_id: u64,
    now: u64,
    r: Result<OperationOutcome, ContractError>,
) -> bool {
    match cancel_check(pre.games@, game_id, caller@) {
        Some(e0) => {
            &&& r matches Err(e) && e == e0
            &&& state_eq(post, pre)
        },
        None => {
            &&& r matches Ok(out)
            &&& post.games@ == cancel_apply(pre.games@, game_id, now)
            &&& post.total_stake_pool as int == pre.total_stake_pool - pre.games@[game_id
                - 1].stake
            &&& post.next_game_id == pre.next_game_id
            &&& post.player_stats@ == pre.player_stats@
            &&& post.owner@ == pre.owner@
            &&& out.transfers@.len() == 1
            &&& is_escrow_credit(out.transfers@[0], caller@, pre.games@[game_id - 1].stake as int)
            &&& out.message matches Some(m)
            &&& m matches Message::GameCancelled { game_id: gid }
            &&& gid == game_id
        },
    }
}

impl AirHockeyState {
    /// Apply one caller-facing operation as a single transactional unit.
    /// `caller` is the authenticated identity, `caller_balance` its
    /// spendable balance as the escrow port reports it, `now` the
    /// current timestamp. Every rule is validated before any effect: on
    /// failure the ledger is untouched and no transfer is requested; on
    /// success the ledger transition and the returned escrow transfers
    /// commit together, the transfers being guaranteed fundable.
    pub fn execute_operation(
        &mut self,
        op: Operation,
        caller: String,
        caller_balance: u128,
        now: u64,
    ) -> (r: Result<OperationOutcome, ContractError>)
        requires
            old(self).wf(),
        ensures
            final(self).wf(),
            match op {
                Operation::Initialize { owner } => init_spec(*old(self), *final(self), owner, r),
                Operation::CreateGame { stake, room_code } => create_spec(
                    *old(self),
                    *final(self),
                    caller,
                    caller_balance,
                    stake,
                    room_code,
                    now,
                    r,
                ),
                Operation::JoinGame { game_id } => join_spec(
                    *old(self),
                    *final(self),
                    caller,
                    caller_balance,
                    game_id,
                    now,
                    r,
                ),
                Operation::SubmitResult { game_id, player1_score, player2_score } => submit_spec(
                    *old(self),
                    *final(self),
                    caller,
                    game_id,
                    player1_score,
                    player2_score,
                    now,
                    r,
                ),
                Operation::CancelGame { game_id } => cancel_spec(
                    *old(self),
                    *final(self),
                    caller,
                    game_id,
                    now,
                    r,
                ),
                Operation::ClaimWinnings { game_id: _ } => {
                    &&& r matches Ok(out)
                    &&& out.transfers@.len() == 0
                    &&& out.message is None
                    &&& state_eq(*final(self), *old(self))
                },
            },
    {
        match op {
            Operation::Initialize { owner } => {
                match self.initialize(owner) {
                    Ok(_) => Ok(OperationOutcome { transfers: Vec::new(), message: None }),
                    Err(e) => Err(e),
                }
            },
            Operation::CreateGame { stake, room_code } => {
                if caller_balance < stake {
                    return Err(ContractError::InsufficientFunds);
                }
                let rc = room_code.clone();
                match self.create_game(caller.clone(), stake, room_code, now) {
                    Ok(id) => {
                        let mut transfers: Vec<TransferAction> = Vec::new();
                        transfers.push(
                            TransferAction { from: Some(caller.clone()), to: None, amount: stake },
                        );
                        let message = Some(
                            Message::GameCreated {
                                game_id: id,
                                creator: caller,
                                stake,
                                room_code: rc,
                            },
                        );
                        Ok(OperationOutcome { transfers, message })
                    },
                    Err(e) => Err(e),
                }
            },
            Operation::JoinGame { game_id } => {
                if game_id == 0 || game_id > self.games.len() as u64 {
                    return Err(ContractError::NotFound);
                }
                let idx = (game_id - 1) as usize;
                if !self.games[idx].can_join() {
                    return Err(ContractError::InvalidState);
                }
                if self.games[idx].creator == caller {
                    return Err(ContractError::SelfJoin);
                }
                let stake = self.games[idx].stake;
                if caller_balance < stake {
                    return Err(ContractError::InsufficientFunds);
                }
                match self.join_game(game_id, caller.clone(), now) {
                    Ok(_) => {
                        let mut transfers: Vec<TransferAction> = Vec::new();
                        transfers.push(
                            TransferAction { from: Some(caller.clone()), to: None, amount: stake },
                        );
                        let message = Some(Message::GameJoined { game_id, opponent: caller });
                        Ok(OperationOutcome { transfers, message })
                    },
                    Err(e) => Err(e),
                }
            },
            Operation::SubmitResult { game_id, player1_score, player2_score } => {
                if game_id == 0 || game_id > self.games.len() as u64 {
                    return Err(ContractError::NotFound);
                }
                let idx = (game_id - 1) as usize;
                let stake = self.games[idx].stake;
                let creator = self.games[idx].creator.clone();
                let opponent = match &self.games[idx].opponent {
                    Some(o) => Some(o.clone()),
                    None => None,
                };
                match self.submit_result(game_id, player1_score, player2_score, &caller, now) {
                    Ok(result) => {
                        let (winner, payout) = result;
                        let mut transfers: Vec<TransferAction> = Vec::new();
                        match &winner {
                            Some(w) => {
                                transfers.push(
                                    TransferAction {
                                        from: None,
                                        to: Some(w.clone()),
                                        amount: payout,
                                    },
                                );
                            },
                            None => {
                                let opp = match opponent {
                                    Some(o) => o,
                                    None => caller.clone(),
                                };
                                transfers.push(
                                    TransferAction { from: None, to: Some(creator), amount: stake },
                                );
                                transfers.push(
                                    TransferAction { from: None, to: Some(opp), amount: stake },
                                );
                            },
                        }
                        let message = Some(
                            Message::GameCompleted {
                                game_id,
                                winner,
                                player1_score,
                                player2_score,
                            },
                        );
                        Ok(OperationOutcome { transfers, message })
                    },
                    Err(e) => Err(e),
                }
            },
            Operation::CancelGame { game_id } => {
                match self.cancel_game(game_id, &caller, now) {
                    Ok(refund) => {
                        let mut transfers: Vec<TransferAction> = Vec::new();
                        transfers.push(
                            TransferAction { from: None, to: Some(caller), amount: refund },
                        );
                        let message = Some(Message::GameCancelled { game_id });
                        Ok(OperationOutcome { transfers, message })
                    },
                    Err(e) => Err(e),
                }
            },
            Operation::ClaimWinnings { game_id: _ } => {
                Ok(OperationOutcome { transfers: Vec::new(), message: None })
            },
        }
    }
}

} // verus!
