//! A rate-limited dispenser ("faucet") of a native asset, written as a
//! verified state machine.
//!
//! The faucet decides, from its stored state and a read-only snapshot of the
//! host environment (caller, block height, contract balance), whether to pay
//! a fixed amount to the caller. It enforces a per-account cooldown measured
//! in blocks, an owner-controlled activation switch, and a reserve of one
//! unit that the balance may never fall below. The host performs the actual
//! value transfer and publishes the notification that a successful drip
//! returns; every decision and every state change is made here and is
//! verified.

pub mod laws;
pub mod machine;

pub use machine::AccountId;
pub use machine::Balance;
pub use machine::BlockNumber;
pub use machine::Drip;
pub use machine::ExecutionContext;
pub use machine::Faucet;
pub use machine::FaucetError;
pub use machine::FaucetModel;
