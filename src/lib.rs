//! A single-authority counter: one record, created once by its authority and
//! then advanced one step at a time, never past the largest `u64`.

pub mod pubkey;
pub mod state;
pub mod instructions;
pub mod laws;
pub mod layout;

pub use instructions::{increment, initialize, Increment, Initialize};
pub use pubkey::Pubkey;
pub use state::{Counter, ErrorCode};
