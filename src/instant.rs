use std::cmp::Ordering;
use std::time::Duration;
use vstd::prelude::*;
use vstd::std_specs::ops::{AddSpec, SubSpec};

use crate::duration::{duration_nanos, lemma_duration_parts, max_nanos, MAX_NANOS, NANOS_PER_SEC};

verus! {

/// Nanoseconds in one millisecond.
pub const NANOS_PER_MILLI: u64 = 1_000_000;

/// The span, in nanoseconds, of a host clock reading given as whole
/// milliseconds and the nanoseconds of its fractional millisecond.
pub open spec fn reading_nanos(millis: u64, sub_millis_nanos: u64) -> nat {
    millis as nat * NANOS_PER_MILLI as nat + sub_millis_nanos as nat
}

/// A point in time: the span since the host clock's origin, in nanoseconds.
#[derive(Copy, Clone, Debug, PartialEq, Eq, Structural, Ord, Hash)]
pub struct Instant {
    nanos: u128,
}

impl View for Instant {
    type V = nat;

    /// The span since the clock's origin, in nanoseconds.
    closed spec fn view(&self) -> nat {
        self.nanos as nat
    }
}

/// The instant `n` nanoseconds after the clock's origin.
pub closed spec fn instant_at(n: nat) -> Instant {
    Instant { nanos: n as u128 }
}

/// Every span up to the largest one names exactly one instant.
pub proof fn lemma_instant_at(n: nat)
    requires
        n <= max_nanos(),
    ensures
        instant_at(n)@ == n,
        forall|t: Instant| #[trigger] t@ == n ==> t == instant_at(n),
{
}

impl Instant {
    #[verifier::type_invariant]
    spec fn within_range(self) -> bool {
        self.nanos <= max_nanos()
    }

    /// The instant of a host clock reading of `millis` whole milliseconds and
    /// `sub_millis_nanos` nanoseconds of the fractional millisecond.
    pub fn now(millis: u64, sub_millis_nanos: u64) -> (r: Instant)
        ensures
            r@ == reading_nanos(millis, sub_millis_nanos),
    {
        proof {
            assert(millis as nat * 1_000_000 + sub_millis_nanos as nat <= max_nanos())
                by (nonlinear_arith)
                requires
                    millis <= u64::MAX,
                    sub_millis_nanos <= u64::MAX,
            ;
        }
        Instant { nanos: millis as u128 * NANOS_PER_MILLI as u128 + sub_millis_nanos as u128 }
    }

    /// The span from the clock's origin to this instant.
    pub fn since_origin(&self) -> (r: Duration)
        ensures
            duration_nanos(r) == self@,
    {
        proof {
            use_type_invariant(self);
        }
        to_duration(self.nanos)
    }

    /// The span from `earlier` to this instant; `earlier` must not be later.
    pub fn duration_since(&self, earlier: Instant) -> (r: Duration)
        requires
            earlier@ <= self@,
        ensures
            duration_nanos(r) == self@ - earlier@,
    {
        proof {
            use_type_invariant(self);
        }
        to_duration(self.nanos - earlier.nanos)
    }

    /// The span from this instant to `now`, a later reading of the clock.
    pub fn elapsed(&self, now: Instant) -> (r: Duration)
        requires
            self@ <= now@,
        ensures
            duration_nanos(r) == now@ - self@,
    {
        now.duration_since(*self)
    }

    /// This instant moved later by `duration`, or `None` where that lies
    /// beyond the representable range.
    pub fn checked_add(&self, duration: Duration) -> (r: Option<Instant>)
        ensures
            r == (if self@ + duration_nanos(duration) <= max_nanos() {
                Some(self.add_spec(duration))
            } else {
                None::<Instant>
            }),
    {
        proof {
            use_type_invariant(self);
        }
        let span = from_duration(duration);
        let total = self.nanos + span;
        if total <= MAX_NANOS {
            Some(Instant { nanos: total })
        } else {
            None
        }
    }

    /// This instant moved earlier by `duration`, or `None` where that lies
    /// before the clock's origin.
    pub fn checked_sub(&self, duration: Duration) -> (r: Option<Instant>)
        ensures
            r == (if duration_nanos(duration) <= self@ {
                Some(self.sub_spec(duration))
            } else {
                None::<Instant>
            }),
    {
        proof {
            use_type_invariant(self);
        }
        let span = from_duration(duration);
        if span <= self.nanos {
            Some(Instant { nanos: self.nanos - span })
        } else {
            None
        }
    }

    /// This instant moved later by `rhs`, in place; the sum must be representable.
    pub fn add_assign(&mut self, rhs: Duration)
        requires
            old(self)@ + duration_nanos(rhs) <= max_nanos(),
        ensures
            *final(self) == old(self).add_spec(rhs),
    {
        *self = *self + rhs;
    }

    /// This instant moved earlier by `rhs`, in place; it must not pass the origin.
    pub fn sub_assign(&mut self, rhs: Duration)
        requires
            duration_nanos(rhs) <= old(self)@,
        ensures
            *final(self) == old(self).sub_spec(rhs),
    {
        *self = *self - rhs;
    }
}

/// The span of `d` in nanoseconds.
fn from_duration(d: Duration) -> (r: u128)
    ensures
        r as nat == duration_nanos(d),
        r <= MAX_NANOS,
{
    proof {
        lemma_duration_parts(d);
    }
    let secs = d.as_secs();
    let nanos = d.subsec_nanos();
    proof {
        assert(secs as nat * 1_000_000_000 + nanos as nat <= max_nanos()) by (nonlinear_arith)
            requires
                secs <= u64::MAX,
                nanos < 1_000_000_000,
        ;
    }
    secs as u128 * NANOS_PER_SEC as u128 + nanos as u128
}

/// The duration of `n` nanoseconds, which lies within the representable range.
fn to_duration(n: u128) -> (r: Duration)
    requires
        n <= MAX_NANOS,
    ensures
        duration_nanos(r) == n as nat,
{
    let secs = n / NANOS_PER_SEC as u128;
    let nanos = n % NANOS_PER_SEC as u128;
    proof {
        assert(secs <= u64::MAX) by (nonlinear_arith)
            requires
                secs == n / 1_000_000_000,
                n <= u64::MAX as nat * 1_000_000_000 + 999_999_999,
        ;
        assert(n == secs * 1_000_000_000 + nanos) by (nonlinear_arith)
            requires
                secs == n / 1_000_000_000,
                nanos == n % 1_000_000_000,
        ;
    }
    Duration::new(secs as u64, nanos as u32)
}

impl std::ops::Add<Duration> for Instant {
    type Output = Instant;

    fn add(self, rhs: Duration) -> (r: Instant) {
        proof {
            use_type_invariant(self);
        }
        Instant { nanos: self.nanos + from_duration(rhs) }
    }
}

impl vstd::std_specs::ops::AddSpecImpl<Duration> for Instant {
    open spec fn obeys_add_spec() -> bool {
        true
    }

    open spec fn add_req(self, rhs: Duration) -> bool {
        self@ + duration_nanos(rhs) <= max_nanos()
    }

    open spec fn add_spec(self, rhs: Duration) -> Instant {
        instant_at(self@ + duration_nanos(rhs))
    }
}

impl std::ops::Sub<Duration> for Instant {
    type Output = Instant;

    fn sub(self, rhs: Duration) -> (r: Instant) {
        proof {
            use_type_invariant(self);
        }
        Instant { nanos: self.nanos - from_duration(rhs) }
    }
}

impl vstd::std_specs::ops::SubSpecImpl<Duration> for Instant {
    open spec fn obeys_sub_spec() -> bool {
        true
    }

    open spec fn sub_req(self, rhs: Duration) -> bool {
        duration_nanos(rhs) <= self@
    }

    open spec fn sub_spec(self, rhs: Duration) -> Instant {
        instant_at((self@ - duration_nanos(rhs)) as nat)
    }
}

impl std::ops::Sub<Instant> for Instant {
    type Output = Duration;

    fn sub(self, rhs: Instant) -> (r: Duration)
        ensures
            duration_nanos(r) == self@ - rhs@,
    {
        self.duration_since(rhs)
    }
}

/// The span between two instants is stated by `sub`'s own `ensures`, over
/// `duration_nanos`: a `Duration` has no spec-level constructor to name here.
impl vstd::std_specs::ops::SubSpecImpl<Instant> for Instant {
    open spec fn obeys_sub_spec() -> bool {
        false
    }

    open spec fn sub_req(self, rhs: Instant) -> bool {
        rhs@ <= self@
    }

    open spec fn sub_spec(self, rhs: Instant) -> Duration {
        arbitrary()
    }
}

impl PartialOrd for Instant {
    fn partial_cmp(&self, other: &Instant) -> (r: Option<Ordering>) {
        if self.nanos < other.nanos {
            Some(Ordering::Less)
        } else if self.nanos > other.nanos {
            Some(Ordering::Greater)
        } else {
            Some(Ordering::Equal)
        }
    }
}

impl vstd::std_specs::cmp::PartialOrdSpecImpl for Instant {
    open spec fn obeys_partial_cmp_spec() -> bool {
        true
    }

    open spec fn partial_cmp_spec(&self, other: &Instant) -> Option<Ordering> {
        Some(
            if self@ < other@ {
                Ordering::Less
            } else if self@ > other@ {
                Ordering::Greater
            } else {
                Ordering::Equal
            },
        )
    }
}

} // verus!
