//! Durations in seconds, milliseconds and nanoseconds, on 64 and 32 bits.
use vstd::prelude::*;
use core::ops::{Add, Sub};
use vstd::std_specs::ops::{AddSpec, AddSpecImpl, SubSpec, SubSpecImpl};
use vstd::std_specs::convert::{FromSpec, FromSpecImpl, TryFromSpec, TryFromSpecImpl};

verus! {

/// The error returned when a conversion between units overflows.
#[derive(Default, Debug, Clone, Copy, PartialEq, Eq, PartialOrd, Ord, Hash)]
pub struct Overflow(());

impl Overflow {
    /// The overflow error.
    pub closed spec fn value() -> Overflow {
        Overflow(())
    }
}

/// Represents a duration in seconds.
#[derive(Default, Debug, Clone, Copy, PartialEq, Eq, Structural, PartialOrd, Ord, Hash)]
pub struct Second(pub u64);

impl Second {
    /// Creates a new value.
    pub fn new(value: u64) -> (r: Self)
        ensures
            r.0 == value,
    {
        Self(value)
    }
}

impl Add<Second> for Second {
    type Output = Self;

    fn add(self, rhs: Self) -> (r: Self) {
        Self::new(self.0 + rhs.0)
    }
}

impl AddSpecImpl<Second> for Second {
    open spec fn obeys_add_spec() -> bool {
        true
    }

    open spec fn add_req(self, rhs: Second) -> bool {
        self.0 + rhs.0 <= u64::MAX
    }

    open spec fn add_spec(self, rhs: Second) -> Second {
        Second((self.0 + rhs.0) as u64)
    }
}

impl Sub<Second> for Second {
    type Output = Self;

    fn sub(self, rhs: Self) -> (r: Self) {
        Self::new(self.0 - rhs.0)
    }
}

impl SubSpecImpl<Second> for Second {
    open spec fn obeys_sub_spec() -> bool {
        true
    }

    open spec fn sub_req(self, rhs: Second) -> bool {
        rhs.0 <= self.0
    }

    open spec fn sub_spec(self, rhs: Second) -> Second {
        Second((self.0 - rhs.0) as u64)
    }
}

impl From<Millisecond> for Second {
    fn from(value: Millisecond) -> (r: Self) {
        Self::new(value.0 / 1_000)
    }
}

impl FromSpecImpl<Millisecond> for Second {
    open spec fn obeys_from_spec() -> bool {
        true
    }

    open spec fn from_spec(v: Millisecond) -> Second {
        Second((v.0 / 1_000) as u64)
    }
}

impl From<Nanosecond> for Second {
    fn from(value: Nanosecond) -> (r: Self) {
        Self::new(value.0 / 1_000_000_000)
    }
}

impl FromSpecImpl<Nanosecond> for Second {
    open spec fn obeys_from_spec() -> bool {
        true
    }

    open spec fn from_spec(v: Nanosecond) -> Second {
        Second((v.0 / 1_000_000_000) as u64)
    }
}

/// A 32-bit representation of a duration in seconds.
#[derive(Default, Debug, Clone, Copy, PartialEq, Eq, Structural, PartialOrd, Ord, Hash)]
pub struct Second32(pub u32);

impl Second32 {
    /// Creates a new value.
    pub fn new(value: u32) -> (r: Self)
        ensures
            r.0 == value,
    {
        Self(value)
    }
}

impl Add<Second32> for Second32 {
    type Output = Self;

    fn add(self, rhs: Self) -> (r: Self) {
        Self::new(self.0 + rhs.0)
    }
}

impl AddSpecImpl<Second32> for Second32 {
    open spec fn obeys_add_spec() -> bool {
        true
    }

    open spec fn add_req(self, rhs: Second32) -> bool {
        self.0 + rhs.0 <= u32::MAX
    }

    open spec fn add_spec(self, rhs: Second32) -> Second32 {
        Second32((self.0 + rhs.0) as u32)
    }
}

impl Sub<Second32> for Second32 {
    type Output = Self;

    fn sub(self, rhs: Self) -> (r: Self) {
        Self::new(self.0 - rhs.0)
    }
}

impl SubSpecImpl<Second32> for Second32 {
    open spec fn obeys_sub_spec() -> bool {
        true
    }

    open spec fn sub_req(self, rhs: Second32) -> bool {
        rhs.0 <= self.0
    }

    open spec fn sub_spec(self, rhs: Second32) -> Second32 {
        Second32((self.0 - rhs.0) as u32)
    }
}

impl From<Millisecond32> for Second32 {
    fn from(value: Millisecond32) -> (r: Self) {
        Self::new(value.0 / 1_000)
    }
}

impl FromSpecImpl<Millisecond32> for Second32 {
    open spec fn obeys_from_spec() -> bool {
        true
    }

    open spec fn from_spec(v: Millisecond32) -> Second32 {
        Second32((v.0 / 1_000) as u32)
    }
}

impl From<Nanosecond32> for Second32 {
    fn from(value: Nanosecond32) -> (r: Self) {
        Self::new(value.0 / 1_000_000_000)
    }
}

impl FromSpecImpl<Nanosecond32> for Second32 {
    open spec fn obeys_from_spec() -> bool {
        true
    }

    open spec fn from_spec(v: Nanosecond32) -> Second32 {
        Second32((v.0 / 1_000_000_000) as u32)
    }
}

/// Represents a duration in milliseconds.
#[derive(Default, Debug, Clone, Copy, PartialEq, Eq, Structural, PartialOrd, Ord, Hash)]
pub struct Millisecond(pub u64);

impl Millisecond {
    /// Creates a new value.
    pub fn new(value: u64) -> (r: Self)
        ensures
            r.0 == value,
    {
        Self(value)
    }
}

impl Add<Millisecond> for Millisecond {
    type Output = Self;

    fn add(self, rhs: Self) -> (r: Self) {
        Self::new(self.0 + rhs.0)
    }
}

impl AddSpecImpl<Millisecond> for Millisecond {
    open spec fn obeys_add_spec() -> bool {
        true
    }

    open spec fn add_req(self, rhs: Millisecond) -> bool {
        self.0 + rhs.0 <= u64::MAX
    }

    open spec fn add_spec(self, rhs: Millisecond) -> Millisecond {
        Millisecond((self.0 + rhs.0) as u64)
    }
}

impl Sub<Millisecond> for Millisecond {
    type Output = Self;

    fn sub(self, rhs: Self) -> (r: Self) {
        Self::new(self.0 - rhs.0)
    }
}

impl SubSpecImpl<Millisecond> for Millisecond {
    open spec fn obeys_sub_spec() -> bool {
        true
    }

    open spec fn sub_req(self, rhs: Millisecond) -> bool {
        rhs.0 <= self.0
    }

    open spec fn sub_spec(self, rhs: Millisecond) -> Millisecond {
        Millisecond((self.0 - rhs.0) as u64)
    }
}

impl Millisecond {
    /// Converts a duration in seconds into milliseconds. The result must fit.
    pub fn from_second(value: Second) -> (r: Self)
        requires
            value.0 * 1_000 <= u64::MAX,
        ensures
            r.0 == value.0 * 1_000,
    {
        Self::new(value.0 * 1_000)
    }
}

impl TryFrom<Nanosecond> for Millisecond {
    type Error = Overflow;

    fn try_from(value: Nanosecond) -> (r: Result<Self, Self::Error>) {
        Ok(Self::new(value.0 / 1_000_000))
    }
}

impl TryFromSpecImpl<Nanosecond> for Millisecond {
    open spec fn obeys_try_from_spec() -> bool {
        true
    }

    open spec fn try_from_spec(v: Nanosecond) -> Result<Millisecond, Overflow> {
        Ok(Millisecond((v.0 / 1_000_000) as u64))
    }
}

/// A 32-bit representation of a duration in milliseconds.
#[derive(Default, Debug, Clone, Copy, PartialEq, Eq, Structural, PartialOrd, Ord, Hash)]
pub struct Millisecond32(pub u32);

impl Millisecond32 {
    /// Creates a new value.
    pub fn new(value: u32) -> (r: Self)
        ensures
            r.0 == value,
    {
        Self(value)
    }
}

impl Add<Millisecond32> for Millisecond32 {
    type Output = Self;

    fn add(self, rhs: Self) -> (r: Self) {
        Self::new(self.0 + rhs.0)
    }
}

impl AddSpecImpl<Millisecond32> for Millisecond32 {
    open spec fn obeys_add_spec() -> bool {
        true
    }

    open spec fn add_req(self, rhs: Millisecond32) -> bool {
        self.0 + rhs.0 <= u32::MAX
    }

    open spec fn add_spec(self, rhs: Millisecond32) -> Millisecond32 {
        Millisecond32((self.0 + rhs.0) as u32)
    }
}

impl Sub<Millisecond32> for Millisecond32 {
    type Output = Self;

    fn sub(self, rhs: Self) -> (r: Self) {
        Self::new(self.0 - rhs.0)
    }
}

impl SubSpecImpl<Millisecond32> for Millisecond32 {
    open spec fn obeys_sub_spec() -> bool {
        true
    }

    open spec fn sub_req(self, rhs: Millisecond32) -> bool {
        rhs.0 <= self.0
    }

    open spec fn sub_spec(self, rhs: Millisecond32) -> Millisecond32 {
        Millisecond32((self.0 - rhs.0) as u32)
    }
}

impl Millisecond32 {
    /// Converts a duration in seconds into milliseconds. The result must fit.
    pub fn from_second(value: Second32) -> (r: Self)
        requires
            value.0 * 1_000 <= u32::MAX,
        ensures
            r.0 == value.0 * 1_000,
    {
        Self::new(value.0 * 1_000)
    }
}

impl TryFrom<Nanosecond32> for Millisecond32 {
    type Error = Overflow;

    fn try_from(value: Nanosecond32) -> (r: Result<Self, Self::Error>) {
        Ok(Self::new(value.0 / 1_000_000))
    }
}

impl TryFromSpecImpl<Nanosecond32> for Millisecond32 {
    open spec fn obeys_try_from_spec() -> bool {
        true
    }

    open spec fn try_from_spec(v: Nanosecond32) -> Result<Millisecond32, Overflow> {
        Ok(Millisecond32((v.0 / 1_000_000) as u32))
    }
}

/// Represents a duration in nanoseconds.
#[derive(Default, Debug, Clone, Copy, PartialEq, Eq, Structural, PartialOrd, Ord, Hash)]
pub struct Nanosecond(pub u64);

impl Nanosecond {
    /// Creates a new value.
    pub fn new(value: u64) -> (r: Self)
        ensures
            r.0 == value,
    {
        Self(value)
    }
}

impl Add<Nanosecond> for Nanosecond {
    type Output = Self;

    fn add(self, rhs: Self) -> (r: Self) {
        Self::new(self.0 + rhs.0)
    }
}

impl AddSpecImpl<Nanosecond> for Nanosecond {
    open spec fn obeys_add_spec() -> bool {
        true
    }

    open spec fn add_req(self, rhs: Nanosecond) -> bool {
        self.0 + rhs.0 <= u64::MAX
    }

    open spec fn add_spec(self, rhs: Nanosecond) -> Nanosecond {
        Nanosecond((self.0 + rhs.0) as u64)
    }
}

impl Sub<Nanosecond> for Nanosecond {
    type Output = Self;

    fn sub(self, rhs: Self) -> (r: Self) {
        Self::new(self.0 - rhs.0)
    }
}

impl SubSpecImpl<Nanosecond> for Nanosecond {
    open spec fn obeys_sub_spec() -> bool {
        true
    }

    open spec fn sub_req(self, rhs: Nanosecond) -> bool {
        rhs.0 <= self.0
    }

    open spec fn sub_spec(self, rhs: Nanosecond) -> Nanosecond {
        Nanosecond((self.0 - rhs.0) as u64)
    }
}

impl TryFrom<Second> for Nanosecond {
    type Error = Overflow;

    fn try_from(value: Second) -> (r: Result<Self, Self::Error>) {
        match value.0.checked_mul(1_000_000_000) {
            Some(v) => Ok(Self::new(v)),
            None => Err(Overflow(())),
        }
    }
}

impl TryFromSpecImpl<Second> for Nanosecond {
    open spec fn obeys_try_from_spec() -> bool {
        true
    }

    open spec fn try_from_spec(v: Second) -> Result<Nanosecond, Overflow> {
        if v.0 * 1_000_000_000 <= u64::MAX {
            Ok(Nanosecond((v.0 * 1_000_000_000) as u64))
        } else {
            Err(Overflow::value())
        }
    }
}

impl TryFrom<Millisecond> for Nanosecond {
    type Error = Overflow;

    fn try_from(value: Millisecond) -> (r: Result<Self, Self::Error>) {
        match value.0.checked_mul(1_000_000) {
            Some(v) => Ok(Self::new(v)),
            None => Err(Overflow(())),
        }
    }
}

impl TryFromSpecImpl<Millisecond> for Nanosecond {
    open spec fn obeys_try_from_spec() -> bool {
        true
    }

    open spec fn try_from_spec(v: Millisecond) -> Result<Nanosecond, Overflow> {
        if v.0 * 1_000_000 <= u64::MAX {
            Ok(Nanosecond((v.0 * 1_000_000) as u64))
        } else {
            Err(Overflow::value())
        }
    }
}

/// A 32-bit representation of a duration in nanoseconds.
#[derive(Default, Debug, Clone, Copy, PartialEq, Eq, Structural, PartialOrd, Ord, Hash)]
pub struct Nanosecond32(pub u32);

impl Nanosecond32 {
    /// Creates a new value.
    pub fn new(value: u32) -> (r: Self)
        ensures
            r.0 == value,
    {
        Self(value)
    }
}

impl Add<Nanosecond32> for Nanosecond32 {
    type Output = Self;

    fn add(self, rhs: Self) -> (r: Self) {
        Self::new(self.0 + rhs.0)
    }
}

impl AddSpecImpl<Nanosecond32> for Nanosecond32 {
    open spec fn obeys_add_spec() -> bool {
        true
    }

    open spec fn add_req(self, rhs: Nanosecond32) -> bool {
        self.0 + rhs.0 <= u32::MAX
    }

    open spec fn add_spec(self, rhs: Nanosecond32) -> Nanosecond32 {
        Nanosecond32((self.0 + rhs.0) as u32)
    }
}

impl Sub<Nanosecond32> for Nanosecond32 {
    type Output = Self;

    fn sub(self, rhs: Self) -> (r: Self) {
        Self::new(self.0 - rhs.0)
    }
}

impl SubSpecImpl<Nanosecond32> for Nanosecond32 {
    open spec fn obeys_sub_spec() -> bool {
        true
    }

    open spec fn sub_req(self, rhs: Nanosecond32) -> bool {
        rhs.0 <= self.0
    }

    open spec fn sub_spec(self, rhs: Nanosecond32) -> Nanosecond32 {
        Nanosecond32((self.0 - rhs.0) as u32)
    }
}

impl TryFrom<Second32> for Nanosecond32 {
    type Error = Overflow;

    fn try_from(value: Second32) -> (r: Result<Self, Self::Error>) {
        match value.0.checked_mul(1_000_000_000) {
            Some(v) => Ok(Self::new(v)),
            None => Err(Overflow(())),
        }
    }
}

impl TryFromSpecImpl<Second32> for Nanosecond32 {
    open spec fn obeys_try_from_spec() -> bool {
        true
    }

    open spec fn try_from_spec(v: Second32) -> Result<Nanosecond32, Overflow> {
        if v.0 * 1_000_000_000 <= u32::MAX {
            Ok(Nanosecond32((v.0 * 1_000_000_000) as u32))
        } else {
            Err(Overflow::value())
        }
    }
}

impl TryFrom<Millisecond32> for Nanosecond32 {
    type Error = Overflow;

    fn try_from(value: Millisecond32) -> (r: Result<Self, Self::Error>) {
        match value.0.checked_mul(1_000_000) {
            Some(v) => Ok(Self::new(v)),
            None => Err(Overflow(())),
        }
    }
}

impl TryFromSpecImpl<Millisecond32> for Nanosecond32 {
    open spec fn obeys_try_from_spec() -> bool {
        true
    }

    open spec fn try_from_spec(v: Millisecond32) -> Result<Nanosecond32, Overflow> {
        if v.0 * 1_000_000 <= u32::MAX {
            Ok(Nanosecond32((v.0 * 1_000_000) as u32))
        } else {
            Err(Overflow::value())
        }
    }
}

/// Converting whole seconds to nanoseconds succeeds exactly when the result
/// fits in 64 bits, and converting the nanoseconds back gives the seconds.
pub proof fn lemma_second_nanosecond_round_trip(s: Second)
    ensures
        <Nanosecond as TryFromSpec<Second>>::try_from_spec(s) is Ok <==> s.0 * 1_000_000_000
            <= u64::MAX,
        <Nanosecond as TryFromSpec<Second>>::try_from_spec(s) matches Ok(n)
            ==> <Second as FromSpec<Nanosecond>>::from_spec(n) == s,
{
}

/// Converting milliseconds to nanoseconds succeeds exactly when the result
/// fits in 64 bits, and converting the nanoseconds back gives the
/// milliseconds.
pub proof fn lemma_millisecond_nanosecond_round_trip(ms: Millisecond)
    ensures
        <Nanosecond as TryFromSpec<Millisecond>>::try_from_spec(ms) is Ok <==> ms.0 * 1_000_000
            <= u64::MAX,
        <Nanosecond as TryFromSpec<Millisecond>>::try_from_spec(ms) matches Ok(n)
            ==> <Millisecond as TryFromSpec<Nanosecond>>::try_from_spec(n) == Ok::<
            Millisecond,
            Overflow,
        >(ms),
{
}

/// Converting seconds to milliseconds and back gives the seconds.
pub proof fn lemma_second_millisecond_round_trip(s: Second)
    requires
        s.0 * 1_000 <= u64::MAX,
    ensures
        <Second as FromSpec<Millisecond>>::from_spec(Millisecond((s.0 * 1_000) as u64)) == s,
{
}

/// Converting a duration to a coarser unit truncates it: what is left is less
/// than one unit.
pub proof fn lemma_coarser_unit_truncates(n: Nanosecond, ms: Millisecond)
    ensures
        0 <= n.0 - <Second as FromSpec<Nanosecond>>::from_spec(n).0 * 1_000_000_000
            < 1_000_000_000,
        0 <= ms.0 - <Second as FromSpec<Millisecond>>::from_spec(ms).0 * 1_000 < 1_000,
{
}

/// Subtracting what was added gives back the duration, in every unit.
pub proof fn lemma_add_sub_inverse(a: u64, b: u64)
    requires
        a + b <= u64::MAX,
    ensures
        <Second as SubSpec<Second>>::sub_spec(
            <Second as AddSpec<Second>>::add_spec(Second(a), Second(b)),
            Second(b),
        ) == Second(a),
        <Millisecond as SubSpec<Millisecond>>::sub_spec(
            <Millisecond as AddSpec<Millisecond>>::add_spec(Millisecond(a), Millisecond(b)),
            Millisecond(b),
        ) == Millisecond(a),
        <Nanosecond as SubSpec<Nanosecond>>::sub_spec(
            <Nanosecond as AddSpec<Nanosecond>>::add_spec(Nanosecond(a), Nanosecond(b)),
            Nanosecond(b),
        ) == Nanosecond(a),
{
}

/// Subtracting what was added gives back the duration, in every 32-bit unit.
pub proof fn lemma_add_sub_inverse32(a: u32, b: u32)
    requires
        a + b <= u32::MAX,
    ensures
        <Second32 as SubSpec<Second32>>::sub_spec(
            <Second32 as AddSpec<Second32>>::add_spec(Second32(a), Second32(b)),
            Second32(b),
        ) == Second32(a),
        <Millisecond32 as SubSpec<Millisecond32>>::sub_spec(
            <Millisecond32 as AddSpec<Millisecond32>>::add_spec(Millisecond32(a), Millisecond32(b)),
            Millisecond32(b),
        ) == Millisecond32(a),
        <Nanosecond32 as SubSpec<Nanosecond32>>::sub_spec(
            <Nanosecond32 as AddSpec<Nanosecond32>>::add_spec(Nanosecond32(a), Nanosecond32(b)),
            Nanosecond32(b),
        ) == Nanosecond32(a),
{
}

} // verus!
