//! Facts about sequences of operations on one record.

use vstd::prelude::*;
use crate::instructions::{after_increments, increment_result, is_authority, next_counter};
use crate::pubkey::Pubkey;
use crate::state::Counter;

verus! {

/// Requests by the authority each raise the count by exactly one, as long as
/// the count stays within `u64`: after `i` of them the count is the starting
/// count plus `i`, and the next one is accepted while `i < n`.
pub proof fn lemma_authority_increments_step_by_one(counter: Counter, n: nat)
    requires
        counter.count + n <= u64::MAX,
    ensures
        forall|i: nat|
            i <= n ==> #[trigger] after_increments(counter, counter.authority, i).count
                == counter.count + i,
        forall|i: nat|
            i < n ==> #[trigger] increment_result(
                after_increments(counter, counter.authority, i),
                counter.authority,
            ) is Ok,
        after_increments(counter, counter.authority, n).count == counter.count + n,
{
    assert forall|i: nat| i <= n implies #[trigger] after_increments(
        counter,
        counter.authority,
        i,
    ).count == counter.count + i && after_increments(counter, counter.authority, i).authority
        == counter.authority by {
        lemma_authority_prefix(counter, i);
    }
}

/// The first `i` requests of the authority leave the authority in place and
/// add `i` to the count, when that sum fits in `u64`.
proof fn lemma_authority_prefix(counter: Counter, i: nat)
    requires
        counter.count + i <= u64::MAX,
    ensures
        after_increments(counter, counter.authority, i).count == counter.count + i,
        after_increments(counter, counter.authority, i).authority == counter.authority,
    decreases i,
{
    if i > 0 {
        lemma_authority_prefix(counter, (i - 1) as nat);
    }
}

/// Whoever sends the requests, and however many, the authority of a record
/// never changes and its count never decreases.
pub proof fn lemma_increments_keep_authority_and_never_decrease(
    counter: Counter,
    caller: Pubkey,
    n: nat,
)
    ensures
        after_increments(counter, caller, n).authority == counter.authority,
        after_increments(counter, caller, n).count >= counter.count,
    decreases n,
{
    if n > 0 {
        lemma_increments_keep_authority_and_never_decrease(counter, caller, (n - 1) as nat);
    }
}

/// Requests from anyone other than the authority never change the record.
pub proof fn lemma_strangers_change_nothing(counter: Counter, caller: Pubkey, n: nat)
    requires
        !is_authority(counter, caller),
    ensures
        after_increments(counter, caller, n) == counter,
    decreases n,
{
    if n > 0 {
        lemma_strangers_change_nothing(counter, caller, (n - 1) as nat);
    }
}

/// Once the count is the largest `u64`, no request changes the record.
pub proof fn lemma_saturated_counter_is_fixed(counter: Counter, caller: Pubkey, n: nat)
    requires
        counter.count == u64::MAX,
    ensures
        after_increments(counter, caller, n) == counter,
    decreases n,
{
    if n > 0 {
        lemma_saturated_counter_is_fixed(counter, caller, (n - 1) as nat);
    }
    assert(next_counter(counter, caller) == counter);
}

} // verus!
