//! Staked-match lifecycle and settlement engine.
//!
//! A player creates a match by escrowing a stake; an opponent joins by
//! matching it; a submitted result settles the match and releases the pot
//! to the winner (or refunds both sides on a draw); a waiting match can be
//! cancelled by its creator for a refund. Per-player statistics accumulate
//! over settled matches, and read-only queries list open matches and the
//! matches of a given player.
//!
//! Every state-changing operation is specified and verified: it either
//! fails with a distinguishable error and leaves the state untouched, or
//! applies the full transition atomically. The aggregate stake pool always
//! equals the sum of one stake per waiting match and two stakes per active
//! match.

pub mod contract;
pub mod errors;
pub mod game;
pub mod laws;
pub mod service;
pub mod state;
pub mod stats;

pub use errors::ContractError;
pub use game::Game;
pub use game::GameStatus;
pub use stats::PlayerStats;
pub use stats::StatsEntry;
