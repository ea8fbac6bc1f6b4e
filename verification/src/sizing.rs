//! Capacity of the event channel that a scan session shares between its groups.

use vstd::prelude::*;

verus! {

/// Smallest capacity ever handed out.
pub const MIN_BUFFER: usize = 50;

/// Largest capacity ever handed out.
pub const MAX_BUFFER: usize = 1000;

/// One extra slot is granted for every `DIVISOR` estimated hosts.
pub const DIVISOR: usize = 10;

/// Capacity for `estimated_ips` hosts: fifty slots plus one per ten hosts,
/// never more than a thousand.
pub open spec fn buffer_size_for(estimated_ips: nat) -> nat {
    let calculated = 50 + estimated_ips / 10;
    if calculated > 1000 {
        1000
    } else {
        calculated
    }
}

/// Channel capacity for a scan that expects to probe `estimated_ips` hosts.
pub fn calculate_buffer_size(estimated_ips: usize) -> (size: usize)
    ensures
        size as nat == buffer_size_for(estimated_ips as nat),
        MIN_BUFFER <= size <= MAX_BUFFER,
{
    let calculated: usize = MIN_BUFFER + estimated_ips / DIVISOR;
    if calculated < MIN_BUFFER {
        MIN_BUFFER
    } else if calculated > MAX_BUFFER {
        MAX_BUFFER
    } else {
        calculated
    }
}

/// A larger estimate never yields a smaller capacity.
pub proof fn lemma_buffer_size_monotonic(a: nat, b: nat)
    requires
        a <= b,
    ensures
        buffer_size_for(a) <= buffer_size_for(b),
{
}

/// Every capacity lies between the floor and the cap.
pub proof fn lemma_buffer_size_bounds(n: nat)
    ensures
        50 <= buffer_size_for(n) <= 1000,
{
}

} // verus!
