//! M-of-N social recovery. An account names friends and a threshold; a rescuer
//! who opens an attempt on it, gathers that many vouches from the friends and
//! waits out the delay, may then act for the account. Deposits on the ledger
//! back configurations and attempts. Every operation is proved to behave as its
//! transition in `pallet` states, and to keep the engine's invariant.

pub mod laws;
pub mod ledger;
pub mod pallet;
pub mod sorted;
pub mod types;

pub use ledger::Ledger;
pub use pallet::Pallet;
pub use types::{ActiveRecovery, Config, Error, Event, RecoveryConfig};
