//! Frequencies.
use vstd::prelude::*;
use vstd::std_specs::convert::FromSpecImpl;

verus! {

/// A representation of a frequency in Hertz.
#[derive(Default, Debug, Clone, Copy, PartialEq, Eq, Structural, PartialOrd, Ord, Hash)]
pub struct Hertz(pub u64);

impl Hertz {
    /// Creates a new `Hertz` instance.
    pub fn new(value: u64) -> (r: Self)
        ensures
            r.0 == value,
    {
        Self(value)
    }
}

impl From<u32> for Hertz {
    fn from(value: u32) -> (r: Self) {
        Self::new(value as u64)
    }
}

impl FromSpecImpl<u32> for Hertz {
    open spec fn obeys_from_spec() -> bool {
        true
    }

    open spec fn from_spec(v: u32) -> Hertz {
        Hertz(v as u64)
    }
}

impl From<Hertz32> for Hertz {
    fn from(hz: Hertz32) -> (r: Self) {
        Self::new(hz.0 as u64)
    }
}

impl FromSpecImpl<Hertz32> for Hertz {
    open spec fn obeys_from_spec() -> bool {
        true
    }

    open spec fn from_spec(v: Hertz32) -> Hertz {
        Hertz(v.0 as u64)
    }
}

/// A 32-bit representation of a frequency in Hertz.
#[derive(Default, Debug, Clone, Copy, PartialEq, Eq, Structural, PartialOrd, Ord, Hash)]
pub struct Hertz32(pub u32);

impl Hertz32 {
    /// Creates a new `Hertz32` instance.
    pub fn new(value: u32) -> (r: Self)
        ensures
            r.0 == value,
    {
        Self(value)
    }
}

} // verus!
