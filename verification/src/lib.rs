//! Escrow state machine and validation engine for a two-party atomic swap
//! on an account-based ledger.

pub mod account;
pub mod actions;
pub mod address;
pub mod cpi;
pub mod error;
pub mod helper;
pub mod instructions;
pub mod laws;
pub mod ledger;
pub mod message;
pub mod pda;
pub mod processor;
pub mod rent;
pub mod runtime;
pub mod state;
pub mod token;
pub mod wire;
