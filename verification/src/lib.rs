//! Client-side logic for unlocking and withdrawing a time-locked custodial
//! account: address derivation, account decoding, instruction requests and
//! the unlock state machine.
//!
//! Nothing here performs I/O. The caller reads accounts and the remote
//! clock, submits transactions, and feeds what it observed to
//! [`orchestrator::step`].

pub mod account;
pub mod address;
pub mod context;
pub mod error;
pub mod instance;
pub mod instruction;
pub mod keys;
pub mod orchestrator;
pub mod token;
