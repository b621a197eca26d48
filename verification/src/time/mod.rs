//! Time: durations in several units, frequencies and timestamps.
pub mod hertz;
pub mod unit;

use vstd::prelude::*;
use core::ops::{Add, Sub};
use vstd::std_specs::ops::{AddSpec, AddSpecImpl, SubSpec, SubSpecImpl};
use unit::{Nanosecond, Second};

verus! {

/// The number of nanoseconds in a second.
pub const NANOS_PER_SECOND: u64 = 1_000_000_000;

/// The duration that `seconds` and `nano` describe together, in nanoseconds.
pub open spec fn total_nanos(seconds: u64, nano: u64) -> int {
    seconds * 1_000_000_000 + nano
}

/// A timestamp that represents a point in time.
#[derive(Debug, Clone, Copy, PartialEq, Eq, Structural, PartialOrd, Ord, Hash)]
pub struct Timespec {
    pub seconds: Second,
    pub nano: Nanosecond,
}

impl Timespec {
    /// The duration since the origin, in nanoseconds.
    pub open spec fn total(self) -> int {
        total_nanos(self.seconds.0, self.nano.0)
    }

    /// The nanoseconds are fewer than a second.
    pub open spec fn is_conformant(self) -> bool {
        self.nano.0 < 1_000_000_000
    }

    /// What `conform` returns.
    pub open spec fn conform_spec(second: Second, nano: Nanosecond) -> Timespec {
        Timespec {
            seconds: Second((second.0 + nano.0 / 1_000_000_000) as u64),
            nano: Nanosecond(nano.0 % 1_000_000_000),
        }
    }

    /// What subtracting seconds gives.
    pub open spec fn sub_seconds_spec(self, rhs: Second) -> Timespec {
        Timespec { seconds: Second((self.seconds.0 - rhs.0) as u64), nano: self.nano }
    }

    /// When subtracting nanoseconds stays in range: when the nanoseconds to
    /// subtract exceed the timestamp's, they may exceed them by one second at
    /// most, and the seconds to borrow must be available.
    pub open spec fn sub_nanos_req(self, rhs: Nanosecond) -> bool {
        if rhs.0 > self.nano.0 {
            &&& rhs.0 - self.nano.0 <= 1_000_000_000
            &&& rhs.0 / 1_000_000_000 + 1 <= self.seconds.0
        } else {
            self.seconds.0 + (self.nano.0 - rhs.0) / 1_000_000_000 <= u64::MAX
        }
    }

    /// What subtracting nanoseconds gives: when the nanoseconds to subtract
    /// exceed the timestamp's, `rhs / 10^9 + 1` seconds are borrowed and the
    /// nanoseconds become `10^9 - (rhs - nano)`.
    pub open spec fn sub_nanos_spec(self, rhs: Nanosecond) -> Timespec {
        if rhs.0 > self.nano.0 {
            Timespec::conform_spec(
                Second((self.seconds.0 - (rhs.0 / 1_000_000_000 + 1)) as u64),
                Nanosecond((1_000_000_000 - (rhs.0 - self.nano.0)) as u64),
            )
        } else {
            Timespec::conform_spec(self.seconds, Nanosecond((self.nano.0 - rhs.0) as u64))
        }
    }

    /// Creates a new timestamp with the given seconds and nanoseconds. The values
    /// are kept as they are, even if the nanoseconds exceed a second.
    pub fn new(seconds: Second, nano: Nanosecond) -> (r: Self)
        ensures
            r.seconds == seconds,
            r.nano == nano,
    {
        Self { seconds, nano }
    }

    /// Creates a new timestamp with all fields set to zero.
    pub fn zero() -> (r: Self)
        ensures
            r.seconds.0 == 0,
            r.nano.0 == 0,
    {
        Self { seconds: Second(0), nano: Nanosecond(0) }
    }

    /// Creates a new conformant timestamp with the given seconds and nanoseconds:
    /// whole seconds held in the nanoseconds are moved to the seconds. The
    /// resulting seconds must fit in 64 bits.
    pub fn conform(second: Second, nano: Nanosecond) -> (r: Self)
        requires
            second.0 + nano.0 / 1_000_000_000 <= u64::MAX,
        ensures
            r == Self::conform_spec(second, nano),
    {
        let mut seconds = second;
        let mut nano = nano;
        seconds.0 = seconds.0 + nano.0 / NANOS_PER_SECOND;
        nano.0 = nano.0 % NANOS_PER_SECOND;
        Self { seconds, nano }
    }

    /// Moves whole seconds held in the nanoseconds to the seconds.
    fn normalize(&mut self)
        requires
            old(self).seconds.0 + old(self).nano.0 / 1_000_000_000 <= u64::MAX,
        ensures
            *final(self) == Self::conform_spec(old(self).seconds, old(self).nano),
    {
        self.seconds.0 = self.seconds.0 + self.nano.0 / NANOS_PER_SECOND;
        self.nano.0 = self.nano.0 % NANOS_PER_SECOND;
    }

    /// Adds `rhs` to the timestamp in place and normalizes the result. The sums
    /// must fit in 64 bits.
    pub fn add_assign(&mut self, rhs: Timespec)
        requires
            old(self).seconds.0 + rhs.seconds.0 <= u64::MAX,
            old(self).nano.0 + rhs.nano.0 <= u64::MAX,
            old(self).seconds.0 + rhs.seconds.0 + (old(self).nano.0 + rhs.nano.0) / 1_000_000_000
                <= u64::MAX,
        ensures
            *final(self) == Self::conform_spec(
                Second((old(self).seconds.0 + rhs.seconds.0) as u64),
                Nanosecond((old(self).nano.0 + rhs.nano.0) as u64),
            ),
    {
        self.seconds.0 = self.seconds.0 + rhs.seconds.0;
        self.nano.0 = self.nano.0 + rhs.nano.0;
        self.normalize();
    }
}

impl Add<Second> for Timespec {
    type Output = Self;

    fn add(self, rhs: Second) -> (r: Self) {
        Self { seconds: self.seconds + rhs, nano: self.nano }
    }
}

impl AddSpecImpl<Second> for Timespec {
    open spec fn obeys_add_spec() -> bool {
        true
    }

    open spec fn add_req(self, rhs: Second) -> bool {
        self.seconds.0 + rhs.0 <= u64::MAX
    }

    open spec fn add_spec(self, rhs: Second) -> Timespec {
        Timespec { seconds: Second((self.seconds.0 + rhs.0) as u64), nano: self.nano }
    }
}

impl Add<Nanosecond> for Timespec {
    type Output = Self;

    fn add(self, rhs: Nanosecond) -> (r: Self) {
        Self::conform(self.seconds, self.nano + rhs)
    }
}

impl AddSpecImpl<Nanosecond> for Timespec {
    open spec fn obeys_add_spec() -> bool {
        true
    }

    open spec fn add_req(self, rhs: Nanosecond) -> bool {
        &&& self.nano.0 + rhs.0 <= u64::MAX
        &&& self.seconds.0 + (self.nano.0 + rhs.0) / 1_000_000_000 <= u64::MAX
    }

    open spec fn add_spec(self, rhs: Nanosecond) -> Timespec {
        Timespec::conform_spec(self.seconds, Nanosecond((self.nano.0 + rhs.0) as u64))
    }
}

/// Adding two timestamps computes their sum on a copy, which is then dropped:
/// the left operand is returned unchanged. The sums on the copy must fit in 64
/// bits.
impl Add<Timespec> for Timespec {
    type Output = Self;

    fn add(self, rhs: Timespec) -> (r: Self) {
        let mut copy = self;
        copy.add_assign(rhs);
        self
    }
}

impl AddSpecImpl<Timespec> for Timespec {
    open spec fn obeys_add_spec() -> bool {
        true
    }

    open spec fn add_req(self, rhs: Timespec) -> bool {
        &&& self.seconds.0 + rhs.seconds.0 <= u64::MAX
        &&& self.nano.0 + rhs.nano.0 <= u64::MAX
        &&& self.seconds.0 + rhs.seconds.0 + (self.nano.0 + rhs.nano.0) / 1_000_000_000
            <= u64::MAX
    }

    open spec fn add_spec(self, rhs: Timespec) -> Timespec {
        self
    }
}

impl Sub<Second> for Timespec {
    type Output = Self;

    fn sub(self, rhs: Second) -> (r: Self) {
        Self { seconds: self.seconds - rhs, nano: self.nano }
    }
}

impl SubSpecImpl<Second> for Timespec {
    open spec fn obeys_sub_spec() -> bool {
        true
    }

    open spec fn sub_req(self, rhs: Second) -> bool {
        rhs.0 <= self.seconds.0
    }

    open spec fn sub_spec(self, rhs: Second) -> Timespec {
        self.sub_seconds_spec(rhs)
    }
}

impl Sub<Nanosecond> for Timespec {
    type Output = Self;

    fn sub(self, rhs: Nanosecond) -> (r: Self) {
        if rhs.0 > self.nano.0 {
            let mut seconds = self.seconds;
            let mut nano = self.nano;
            let diff = rhs.0 - nano.0;
            nano.0 = NANOS_PER_SECOND - diff;
            seconds = seconds - Second(rhs.0 / NANOS_PER_SECOND + 1);
            Self::conform(seconds, nano)
        } else {
            Self::conform(self.seconds, self.nano - rhs)
        }
    }
}

impl SubSpecImpl<Nanosecond> for Timespec {
    open spec fn obeys_sub_spec() -> bool {
        true
    }

    open spec fn sub_req(self, rhs: Nanosecond) -> bool {
        self.sub_nanos_req(rhs)
    }

    open spec fn sub_spec(self, rhs: Nanosecond) -> Timespec {
        self.sub_nanos_spec(rhs)
    }
}

impl Sub<Timespec> for Timespec {
    type Output = Self;

    fn sub(self, rhs: Timespec) -> (r: Self) {
        let copy = self - rhs.seconds;
        copy - rhs.nano
    }
}

impl SubSpecImpl<Timespec> for Timespec {
    open spec fn obeys_sub_spec() -> bool {
        true
    }

    open spec fn sub_req(self, rhs: Timespec) -> bool {
        &&& rhs.seconds.0 <= self.seconds.0
        &&& self.sub_seconds_spec(rhs.seconds).sub_nanos_req(rhs.nano)
    }

    open spec fn sub_spec(self, rhs: Timespec) -> Timespec {
        self.sub_seconds_spec(rhs.seconds).sub_nanos_spec(rhs.nano)
    }
}

/// Conforming a timestamp keeps the duration it describes and leaves fewer
/// nanoseconds than a second.
pub proof fn lemma_conform_keeps_total(second: Second, nano: Nanosecond)
    requires
        second.0 + nano.0 / 1_000_000_000 <= u64::MAX,
    ensures
        Timespec::conform_spec(second, nano).total() == total_nanos(second.0, nano.0),
        Timespec::conform_spec(second, nano).is_conformant(),
{
    assert(nano.0 == (nano.0 / 1_000_000_000) * 1_000_000_000 + nano.0 % 1_000_000_000);
}

/// Adding nanoseconds to a timestamp adds them to the duration it describes,
/// and the result is conformant.
pub proof fn lemma_add_nanos_total(t: Timespec, n: Nanosecond)
    requires
        <Timespec as AddSpec<Nanosecond>>::add_req(t, n),
    ensures
        <Timespec as AddSpec<Nanosecond>>::add_spec(t, n).total() == t.total() + n.0,
        <Timespec as AddSpec<Nanosecond>>::add_spec(t, n).is_conformant(),
{
    lemma_conform_keeps_total(t.seconds, Nanosecond((t.nano.0 + n.0) as u64));
}

/// Subtracting seconds that were added gives back the timestamp.
pub proof fn lemma_add_sub_seconds(t: Timespec, s: Second)
    requires
        t.seconds.0 + s.0 <= u64::MAX,
    ensures
        <Timespec as SubSpec<Second>>::sub_spec(<Timespec as AddSpec<Second>>::add_spec(t, s), s)
            == t,
{
}

/// Subtracting less than a second from a conformant timestamp that holds at
/// least one second removes exactly that duration, and the result is
/// conformant.
pub proof fn lemma_sub_nanos_total(t: Timespec, n: Nanosecond)
    requires
        t.is_conformant(),
        n.0 < 1_000_000_000,
        t.seconds.0 >= 1,
    ensures
        <Timespec as SubSpec<Nanosecond>>::sub_req(t, n),
        <Timespec as SubSpec<Nanosecond>>::sub_spec(t, n).total() == t.total() - n.0,
        <Timespec as SubSpec<Nanosecond>>::sub_spec(t, n).is_conformant(),
{
    if n.0 > t.nano.0 {
        lemma_conform_keeps_total(
            Second((t.seconds.0 - 1) as u64),
            Nanosecond((1_000_000_000 - (n.0 - t.nano.0)) as u64),
        );
    } else {
        lemma_conform_keeps_total(t.seconds, Nanosecond((t.nano.0 - n.0) as u64));
    }
}

/// Adding a timestamp in place adds the durations, and the result is
/// conformant.
pub proof fn lemma_add_assign_total(t: Timespec, u: Timespec)
    requires
        t.seconds.0 + u.seconds.0 <= u64::MAX,
        t.nano.0 + u.nano.0 <= u64::MAX,
        t.seconds.0 + u.seconds.0 + (t.nano.0 + u.nano.0) / 1_000_000_000 <= u64::MAX,
    ensures
        Timespec::conform_spec(
            Second((t.seconds.0 + u.seconds.0) as u64),
            Nanosecond((t.nano.0 + u.nano.0) as u64),
        ).total() == t.total() + u.total(),
{
    lemma_conform_keeps_total(
        Second((t.seconds.0 + u.seconds.0) as u64),
        Nanosecond((t.nano.0 + u.nano.0) as u64),
    );
}

} // verus!
