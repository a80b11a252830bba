//! The persistent counter record and the errors its operations report.

use vstd::prelude::*;
use crate::pubkey::{Pubkey, PUBKEY_BYTES};

verus! {

/// Bytes of the type tag stored in front of every record.
pub const DISCRIMINATOR_LEN: usize = 8;

/// The counter record: a value and the one identity allowed to change it.
#[derive(Clone, Copy, Debug, PartialEq, Eq)]
pub struct Counter {
    pub count: u64,
    pub authority: Pubkey,
}

impl Counter {
    /// Bytes taken by the record's fields: the count, then the authority.
    pub const INIT_SPACE: usize = 8 + PUBKEY_BYTES;

    /// Bytes allocated for a record: the type tag, then the fields.
    pub const SPACE: usize = DISCRIMINATOR_LEN + 8 + PUBKEY_BYTES;

    /// A freshly created record: count zero, owned by `authority`.
    pub open spec fn fresh(authority: Pubkey) -> Counter {
        Counter { count: 0, authority }
    }

    /// A record holding `count`, owned by `authority`.
    pub fn new(count: u64, authority: Pubkey) -> (r: Counter)
        ensures
            r.count == count,
            r.authority == authority,
    {
        Counter { count, authority }
    }
}

/// Why an operation was rejected. A rejected operation changes nothing.
#[derive(Clone, Copy, Debug, PartialEq, Eq, Structural)]
pub enum ErrorCode {
    /// The count is already the largest `u64`.
    Overflow,
    /// The caller is not the record's authority.
    Unauthorized,
    /// Storage for the record could not be created: the slot is taken, or
    /// the payer cannot fund it.
    AllocationFailed,
}

impl ErrorCode {
    /// The human-readable text of the error.
    pub fn message(&self) -> (r: &'static str)
        ensures
            *self == ErrorCode::Overflow ==> r@ == "Arithmetic overflow occurred"@,
            *self == ErrorCode::Unauthorized ==> r@
                == "Unauthorized: Only the counter authority can perform this action"@,
            *self == ErrorCode::AllocationFailed ==> r@ == "Storage for the record could not be allocated"@,
    {
        match self {
            ErrorCode::Overflow => "Arithmetic overflow occurred",
            ErrorCode::Unauthorized => "Unauthorized: Only the counter authority can perform this action",
            ErrorCode::AllocationFailed => "Storage for the record could not be allocated",
        }
    }
}

} // verus!
