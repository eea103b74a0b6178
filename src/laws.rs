use std::cmp::Ordering;
use std::time::Duration;
use vstd::prelude::*;
use vstd::std_specs::cmp::PartialOrdSpec;
use vstd::std_specs::ops::{AddSpec, SubSpec};

use crate::duration::{duration_nanos, max_nanos};
use crate::instant::{lemma_instant_at, reading_nanos, Instant};

verus! {

/// Moving one instant later by a longer span never gives an earlier instant
/// than moving it by a shorter one.
pub proof fn lemma_add_is_monotone(t: Instant, d1: Duration, d2: Duration)
    requires
        duration_nanos(d1) <= duration_nanos(d2),
        t.add_req(d2),
    ensures
        t.add_req(d1),
        t.add_spec(d1)@ <= t.add_spec(d2)@,
        t.add_spec(d1).partial_cmp_spec(&t.add_spec(d2)) != Some(Ordering::Greater),
{
    lemma_instant_at(t@ + duration_nanos(d1));
    lemma_instant_at(t@ + duration_nanos(d2));
}

/// Moving an instant later by a span and then earlier by the same span gives
/// back the instant itself.
pub proof fn lemma_add_then_sub(t: Instant, d: Duration)
    requires
        t.add_req(d),
    ensures
        t.add_spec(d).sub_req(d),
        t.add_spec(d).sub_spec(d) == t,
{
    lemma_instant_at(t@ + duration_nanos(d));
    lemma_instant_at(t@);
}

/// Of two host clock readings, the later one gives the later span: a reading
/// is its whole milliseconds and the nanoseconds of its fractional millisecond.
pub proof fn lemma_later_reading_not_earlier(
    millis1: u64,
    sub_millis_nanos1: u64,
    millis2: u64,
    sub_millis_nanos2: u64,
)
    requires
        sub_millis_nanos1 < 1_000_000,
        sub_millis_nanos2 < 1_000_000,
        millis1 < millis2 || (millis1 == millis2 && sub_millis_nanos1 <= sub_millis_nanos2),
    ensures
        reading_nanos(millis1, sub_millis_nanos1) <= reading_nanos(millis2, sub_millis_nanos2),
{
    if millis1 < millis2 {
        assert(millis1 as nat * 1_000_000 + sub_millis_nanos1 as nat <= millis2 as nat * 1_000_000
            + sub_millis_nanos2 as nat) by (nonlinear_arith)
            requires
                millis1 < millis2,
                sub_millis_nanos1 < 1_000_000,
        ;
    }
}

} // verus!
