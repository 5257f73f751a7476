//! The three operations of the escrow program and their wire format.

pub mod checks;
pub mod instruction;
pub mod make;
pub mod refund;
pub mod take;
