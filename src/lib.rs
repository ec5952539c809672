//! A single-owner time-locked wallet: a verified state machine for the
//! owner, the unlock time and the decisions of each operation.
pub mod values;
pub mod wallet;
pub mod laws;
