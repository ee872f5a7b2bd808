//! Verified core of the VeriDraws on-chain program.
//!
//! The Solana runtime enters a program through one function. It hands that function
//! the program's identifier, the accounts the instruction names and the instruction's
//! payload, and takes back success or a program error. This crate holds what that
//! function decides. Writing to the program log and registering the function with the
//! runtime are the caller's part.

pub mod processor;
pub mod runtime;

pub use processor::{process_instruction, Outcome, ENTRYPOINT_MESSAGE};
