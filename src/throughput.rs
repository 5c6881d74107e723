//! The throughput figure the client reports.

use vstd::prelude::*;

verus! {

/// The elapsed time used in the formula: never zero, so that a measurement
/// too short to register still gives a figure.
pub open spec fn effective_elapsed_ms(elapsed_ms: nat) -> nat {
    if elapsed_ms == 0 {
        1
    } else {
        elapsed_ms
    }
}

/// The reported figure: `(elapsed_ms * 1000) / packet_budget`, with the
/// elapsed time raised to 1 when it is 0, and the division floored.
pub open spec fn pps_of(elapsed_ms: nat, packet_budget: nat) -> nat
    recommends
        packet_budget > 0,
{
    (effective_elapsed_ms(elapsed_ms) * 1000) / packet_budget
}

/// Computes the reported figure from the measured time and the packet budget.
/// Integer arithmetic throughout; the quotient is rounded down.
pub fn packets_per_second(elapsed_ms: u64, packet_budget: u32) -> (r: u128)
    requires
        packet_budget > 0,
    ensures
        r == pps_of(elapsed_ms as nat, packet_budget as nat),
{
    let elapsed: u64 = if elapsed_ms == 0 {
        1
    } else {
        elapsed_ms
    };
    let scaled: u128 = elapsed as u128 * 1000;
    scaled / (packet_budget as u128)
}

} // verus!
