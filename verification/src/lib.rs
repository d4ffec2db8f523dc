//! A custodial pooling ledger: depositors place principal into a shared
//! vault, accrue time-based yield at published per-chain rates, and reserve
//! funds for cross-chain transfers that a privileged authority later
//! resolves. This crate is the ledger state machine alone; token custody,
//! durable record storage, caller authentication and the clock are services
//! of the hosting environment, which hands plain values in and out.

pub mod state;
pub mod yield_calc;
pub mod ops;
pub mod history;
pub mod consistency;
