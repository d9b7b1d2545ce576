//! Monotonic clock abstraction: millisecond [`Instant`]s and the
//! [`Clock`] trait that produces them.
use vstd::prelude::*;
use core::cmp::Ordering;
use core::ops::{Add, Sub};
use vstd::std_specs::cmp::{PartialOrdSpec, PartialOrdSpecImpl};
use vstd::std_specs::ops::{AddSpec, AddSpecImpl, SubSpecImpl};

verus! {

/// A point in time with millisecond resolution.
#[derive(Debug, Clone, Copy, PartialEq, Eq, Structural, Ord, Hash, Default)]
pub struct Instant {
    millis: u64,
}

impl View for Instant {
    type V = u64;

    /// Milliseconds since the clock epoch.
    closed spec fn view(&self) -> u64 {
        self.millis
    }
}

/// Instants order by their millisecond counts.
impl PartialOrd for Instant {
    fn partial_cmp(&self, other: &Self) -> (r: Option<Ordering>) {
        if self.millis < other.millis {
            Some(Ordering::Less)
        } else if self.millis > other.millis {
            Some(Ordering::Greater)
        } else {
            Some(Ordering::Equal)
        }
    }
}

impl PartialOrdSpecImpl for Instant {
    open spec fn obeys_partial_cmp_spec() -> bool {
        true
    }

    open spec fn partial_cmp_spec(&self, other: &Self) -> Option<Ordering> {
        if self@ < other@ {
            Some(Ordering::Less)
        } else if self@ > other@ {
            Some(Ordering::Greater)
        } else {
            Some(Ordering::Equal)
        }
    }
}

/// Instants compare as their millisecond counts do: one is earlier (`<`)
/// exactly when its count is smaller, and two are equal exactly when their
/// counts are.
pub proof fn lemma_instant_order(a: Instant, b: Instant)
    ensures
        (PartialOrdSpec::partial_cmp_spec(&a, &b) == Some(Ordering::Less)) <==> a@ < b@,
        (PartialOrdSpec::partial_cmp_spec(&a, &b) == Some(Ordering::Greater)) <==> a@ > b@,
        (a == b) <==> a@ == b@,
{
}

/// Two instants are equal exactly when they hold the same millisecond count.
pub broadcast proof fn lemma_instant_view_ext(a: Instant, b: Instant)
    ensures
        (#[trigger] a@) == (#[trigger] b@) ==> a == b,
{
}

/// `a + b`, saturating at `u64::MAX`.
pub open spec fn sat_add(a: u64, b: u64) -> u64 {
    if a + b <= u64::MAX { (a + b) as u64 } else { u64::MAX }
}

/// The instant `ms` milliseconds after `now`, saturating at the end of the
/// clock range.
pub open spec fn after(now: Instant, ms: u64) -> Instant {
    instant_at(sat_add(now@, ms))
}

/// `a - b`, saturating at zero.
pub open spec fn sat_sub(a: u64, b: u64) -> u64 {
    if a >= b { (a - b) as u64 } else { 0 }
}

/// The instant `millis` milliseconds after the epoch, in specifications.
pub closed spec fn instant_at(millis: u64) -> Instant {
    Instant { millis }
}

/// `instant_at` produces the instant whose view is its argument.
pub broadcast proof fn lemma_instant_at_view(millis: u64)
    ensures
        #[trigger] instant_at(millis)@ == millis,
{
}

impl Instant {
    /// The instant `ms` milliseconds after `self`, saturating at the end of
    /// the clock range (the `+` operator).
    pub(crate) fn plus(self, ms: u64) -> (r: Self)
        ensures
            r == after(self, ms),
    {
        proof {
            lemma_instant_at_view(sat_add(self@, ms));
        }
        Self { millis: self.millis.saturating_add(ms) }
    }

    /// Zero instant -- the beginning of the clock epoch.
    pub fn zero() -> (r: Self)
        ensures
            r@ == 0,
    {
        Self { millis: 0 }
    }

    /// Construct an `Instant` from milliseconds since the clock epoch.
    pub fn from_millis(millis: u64) -> (r: Self)
        ensures
            r@ == millis,
    {
        Self { millis }
    }

    /// Milliseconds since the clock epoch.
    pub fn as_millis(self) -> (r: u64)
        ensures
            r == self@,
    {
        self.millis
    }

    /// Saturating subtraction: the milliseconds from `earlier` to `self`,
    /// or zero when `earlier` lies after `self`.
    pub fn saturating_duration_since(self, earlier: Self) -> (r: u64)
        ensures
            r == sat_sub(self@, earlier@),
    {
        self.millis.saturating_sub(earlier.millis)
    }
}

impl Add<u64> for Instant {
    type Output = Self;

    /// Adds a duration in milliseconds, saturating at `u64::MAX`.
    fn add(self, millis: u64) -> (r: Self)
        ensures
            r@ == sat_add(self@, millis),
    {
        self.plus(millis)
    }
}

impl AddSpecImpl<u64> for Instant {
    open spec fn obeys_add_spec() -> bool {
        true
    }

    open spec fn add_req(self, rhs: u64) -> bool {
        true
    }

    closed spec fn add_spec(self, rhs: u64) -> Self {
        Instant { millis: if self.millis + rhs <= u64::MAX { (self.millis + rhs) as u64 } else { u64::MAX } }
    }
}

impl Sub for Instant {
    type Output = u64;

    /// Saturating subtraction in milliseconds.
    fn sub(self, rhs: Self) -> (r: u64)
        ensures
            r == sat_sub(self@, rhs@),
    {
        self.saturating_duration_since(rhs)
    }
}

impl SubSpecImpl for Instant {
    open spec fn obeys_sub_spec() -> bool {
        true
    }

    open spec fn sub_req(self, rhs: Instant) -> bool {
        true
    }

    closed spec fn sub_spec(self, rhs: Instant) -> u64 {
        if self.millis >= rhs.millis { (self.millis - rhs.millis) as u64 } else { 0u64 }
    }
}

/// The `+` operator on instants saturates the millisecond count.
pub broadcast proof fn lemma_instant_add_view(a: Instant, ms: u64)
    ensures
        (#[trigger] AddSpec::add_spec(a, ms))@ == sat_add(a@, ms),
{
}

/// Monotonic clock. Implementations must guarantee that successive calls to
/// [`Clock::now`] return non-decreasing `Instant` values.
pub trait Clock {
    /// Read the current monotonic time.
    fn now(&self) -> Instant;
}

} // verus!
