//! Execution core of an agent-driven task scheduler: the admission rules that
//! decide which pending agent may check in, the balance ledger, the settlement
//! of balance movements into transfer messages, and the owner's settings patch.

pub mod admission;
pub mod error;
pub mod ledger;
pub mod types;
pub mod traits;
pub mod host;
pub mod msg;
pub mod state;
pub mod helpers;
pub mod owner;
