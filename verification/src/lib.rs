//! Core logic of a token fundraising program and its safe-mode transfer guard.
//!
//! The library owns the arithmetic and state-transition rules: overflow-safe
//! fixed-point USD conversion, the one-way graduation state machine, fee
//! splitting, and time-gated anti-abuse checks. The ledger platform around it
//! (caller authentication, account storage, the balance-movement primitive,
//! and the wall clock) is an external collaborator: every operation here takes
//! the values it needs as plain arguments and returns the balance movements it
//! requests as plain description values, which the surrounding runtime is
//! expected to apply atomically.

pub mod accounts;
pub mod contribution;
pub mod convert;
pub mod fee_transfer;
pub mod safe_mode;
