//! The two operations on a counter record: `initialize` and `increment`.
//!
//! Each operation receives the accounts it works on as a context, checks its
//! guards against the current state, and either applies its whole effect or
//! returns an error and leaves the context exactly as it was.

use vstd::prelude::*;
use crate::pubkey::Pubkey;
use crate::state::{Counter, ErrorCode};

verus! {

/// Accounts of the `initialize` operation.
#[derive(Clone, Debug)]
pub struct Initialize {
    /// The slot that is to hold the record: `None` while nothing is stored there.
    pub counter: Option<Counter>,
    /// The authenticated signer: it funds the storage and becomes the authority.
    pub authority: Pubkey,
    /// Lamports the signer holds.
    pub payer_lamports: u64,
    /// Lamports the runtime asks for keeping `Counter::SPACE` bytes.
    pub rent_lamports: u64,
}

/// Accounts of the `increment` operation.
#[derive(Clone, Debug)]
pub struct Increment {
    /// The initialized record.
    pub counter: Counter,
    /// The authenticated signer of the request.
    pub authority: Pubkey,
}

/// Whether `initialize` can create the record: the slot is vacant and the
/// signer can pay for its storage.
pub open spec fn can_allocate(ctx: Initialize) -> bool {
    ctx.counter is None && ctx.payer_lamports >= ctx.rent_lamports
}

/// Whether `caller` may change `counter`.
pub open spec fn is_authority(counter: Counter, caller: Pubkey) -> bool {
    caller@ == counter.authority@
}

/// What `increment` does to `counter` when `caller` asks: the record after
/// the step, or the reason it is refused.
pub open spec fn increment_result(counter: Counter, caller: Pubkey) -> Result<Counter, ErrorCode> {
    if !is_authority(counter, caller) {
        Err(ErrorCode::Unauthorized)
    } else if counter.count == u64::MAX {
        Err(ErrorCode::Overflow)
    } else {
        Ok(Counter { count: (counter.count + 1) as u64, authority: counter.authority })
    }
}

/// The record after one request of `caller`: unchanged when it is refused.
pub open spec fn next_counter(counter: Counter, caller: Pubkey) -> Counter {
    match increment_result(counter, caller) {
        Ok(c) => c,
        Err(_) => counter,
    }
}

/// The record after `n` successive increment requests of `caller`.
pub open spec fn after_increments(counter: Counter, caller: Pubkey, n: nat) -> Counter
    decreases n,
{
    if n == 0 {
        counter
    } else {
        next_counter(after_increments(counter, caller, (n - 1) as nat), caller)
    }
}

/// Creates the record in a vacant slot, owned by the signer, with count zero,
/// and takes the storage rent from the signer.
///
/// Fails with `AllocationFailed`, changing nothing, when the slot already
/// holds a record or the signer cannot pay the rent.
pub fn initialize(ctx: &mut Initialize) -> (r: Result<(), ErrorCode>)
    ensures
        r is Ok <==> can_allocate(*old(ctx)),
        r is Ok ==> final(ctx).counter == Some(Counter::fresh(old(ctx).authority)),
        r is Ok ==> final(ctx).payer_lamports == old(ctx).payer_lamports - old(ctx).rent_lamports,
        r is Ok ==> final(ctx).authority == old(ctx).authority,
        r is Ok ==> final(ctx).rent_lamports == old(ctx).rent_lamports,
        r is Err ==> r == Err::<(), ErrorCode>(ErrorCode::AllocationFailed),
        r is Err ==> *final(ctx) == *old(ctx),
{
    if ctx.counter.is_some() || ctx.payer_lamports < ctx.rent_lamports {
        return Err(ErrorCode::AllocationFailed);
    }
    ctx.payer_lamports = ctx.payer_lamports - ctx.rent_lamports;
    ctx.counter = Some(Counter { count: 0, authority: ctx.authority });
    Ok(())
}

/// Adds one to the record's count on behalf of the signer.
///
/// Fails with `Unauthorized` when the signer is not the record's authority,
/// and otherwise with `Overflow` when the count is already the largest `u64`;
/// a failed call changes nothing.
pub fn increment(ctx: &mut Increment) -> (r: Result<(), ErrorCode>)
    ensures
        r == Err::<(), ErrorCode>(ErrorCode::Unauthorized) <==> !is_authority(
            old(ctx).counter,
            old(ctx).authority,
        ),
        r == Err::<(), ErrorCode>(ErrorCode::Overflow) <==> is_authority(
            old(ctx).counter,
            old(ctx).authority,
        ) && old(ctx).counter.count == u64::MAX,
        r is Ok <==> increment_result(old(ctx).counter, old(ctx).authority) is Ok,
        r is Ok ==> final(ctx).counter.count == old(ctx).counter.count + 1,
        final(ctx).counter.authority == old(ctx).counter.authority,
        final(ctx).authority == old(ctx).authority,
        final(ctx).counter == next_counter(old(ctx).counter, old(ctx).authority),
        r is Err ==> *final(ctx) == *old(ctx),
{
    if !ctx.counter.authority.same_key(&ctx.authority) {
        return Err(ErrorCode::Unauthorized);
    }
    match ctx.counter.count.checked_add(1) {
        Some(n) => {
            ctx.counter.count = n;
            Ok(())
        },
        None => Err(ErrorCode::Overflow),
    }
}

} // verus!
