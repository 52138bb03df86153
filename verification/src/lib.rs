//! Campaign-based voting ledger: time-boxed campaigns in which principals
//! commit fungible value to vote for contestants, paying a platform fee on
//! each vote, while a bounded top-3 voter leaderboard is maintained.
//!
//! The crate holds the transactional state-transition core: authorization
//! checks, time-window enforcement, checked fee-split arithmetic, record
//! lifecycle, and leaderboard maintenance. Moving the fungible value itself
//! is delegated to an external ledger: the vote protocol hands the caller the
//! transfer amounts to execute, and the caller commits the state change only
//! inside the same atomic transaction as those transfers.

pub mod errors;
pub mod fee;
pub mod records;
pub mod leaderboard;
pub mod store;
pub mod treasury;
