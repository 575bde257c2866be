//! An escrow-based hash-time-locked contract for atomic swaps.
//!
//! The library decodes and validates instructions, derives the payment
//! commitment, keeps the payment record's state machine, and decides, for each
//! instruction, which ledger effects must be carried out.
pub mod accounts;
pub mod bytes;
pub mod error;
pub mod hash;
pub mod instruction;
pub mod payment;
pub mod processor;

pub use processor::{process_instruction, STORAGE_SPACE_ALLOCATED};
