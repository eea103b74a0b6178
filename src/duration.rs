use std::time::Duration;
use vstd::arithmetic::div_mod::lemma_fundamental_div_mod;
use vstd::prelude::*;

verus! {

/// Nanoseconds in one second.
pub const NANOS_PER_SEC: u32 = 1_000_000_000;

/// The total length of a `Duration`, in whole nanoseconds.
pub uninterp spec fn duration_nanos(d: Duration) -> nat;

/// The largest span that whole seconds in a `u64` plus a sub-second part
/// hold, in nanoseconds.
pub const MAX_NANOS: u128 = 18_446_744_073_709_551_615 * 1_000_000_000 + 999_999_999;

/// The largest span that whole seconds in a `u64` plus a sub-second part hold.
pub open spec fn max_nanos() -> nat {
    u64::MAX as nat * NANOS_PER_SEC as nat + (NANOS_PER_SEC - 1) as nat
}

/// Relies on `Duration::as_secs`: the whole seconds of the span.
pub assume_specification[ Duration::as_secs ](d: &Duration) -> (r: u64)
    ensures
        r as nat == duration_nanos(*d) / NANOS_PER_SEC as nat,
;

/// Relies on `Duration::subsec_nanos`: the part of the span below one second.
pub assume_specification[ Duration::subsec_nanos ](d: &Duration) -> (r: u32)
    ensures
        r as nat == duration_nanos(*d) % NANOS_PER_SEC as nat,
;

/// Relies on `Duration::new`: whole seconds plus nanoseconds; with fewer than
/// a second of nanoseconds there is no carry, so it cannot panic.
pub assume_specification[ Duration::new ](secs: u64, nanos: u32) -> (r: Duration)
    requires
        nanos < NANOS_PER_SEC,
    ensures
        duration_nanos(r) == secs as nat * NANOS_PER_SEC as nat + nanos as nat,
;

/// A span is its whole seconds and the nanoseconds below the next second.
pub proof fn lemma_duration_parts(d: Duration)
    ensures
        duration_nanos(d) == duration_nanos(d) / NANOS_PER_SEC as nat * NANOS_PER_SEC as nat
            + duration_nanos(d) % NANOS_PER_SEC as nat,
        duration_nanos(d) % (NANOS_PER_SEC as nat) < NANOS_PER_SEC,
{
    lemma_fundamental_div_mod(duration_nanos(d) as int, NANOS_PER_SEC as int);
}

} // verus!
