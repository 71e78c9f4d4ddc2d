//! Pooled-stake match escrow: a host opens a wagered match, a bounded roster
//! of participants each deposit a fixed entry fee into a shared pool, and the
//! pool is later resolved either by paying a single winner (minus a rake fee
//! to the host) or by refunding every depositor.
//!
//! The crate holds the lifecycle state machine, the roster bookkeeping, the
//! custody accounting and the settlement arithmetic. Identity verification,
//! storage addressing and the actual movement of value between accounts are
//! the hosting ledger's work: operations here take the facts they need as
//! plain values and hand back the transfers the ledger must apply.

pub mod laws;
pub mod model;
pub mod ops;
pub mod state;

pub use ops::close_match;
pub use ops::create_match;
pub use ops::join_match;
pub use ops::leave_match;
pub use ops::settle_match;
pub use ops::start_match;

pub use state::AccountId;
pub use state::ErrorCode;
pub use state::MatchAccount;
pub use state::MatchStatus;
pub use state::Transfer;
pub use state::MAX_ID_LENGTH;
pub use state::MAX_PLAYERS;
