//! The four entry counters of the header. They hold the same kind of number
//! but count different things, so each has a type of its own and one cannot be
//! passed for another.

use vstd::prelude::*;
use vstd::std_specs::convert::FromSpecImpl;

verus! {

/// The number of questions, or in an update the number of zones.
#[derive(Debug, Clone, Copy, PartialEq, Eq)]
pub struct QdZoCount(pub u16);

impl From<u16> for QdZoCount {
    /// The counter with the given value.
    fn from(value: u16) -> (count: QdZoCount)
        ensures
            count == QdZoCount(value),
    {
        QdZoCount(value)
    }
}

impl FromSpecImpl<u16> for QdZoCount {
    open spec fn obeys_from_spec() -> bool {
        true
    }

    open spec fn from_spec(value: u16) -> QdZoCount {
        QdZoCount(value)
    }
}

impl From<QdZoCount> for u16 {
    /// The counter's value.
    fn from(count: QdZoCount) -> (value: u16)
        ensures
            value == count.0,
    {
        count.0
    }
}

impl FromSpecImpl<QdZoCount> for u16 {
    open spec fn obeys_from_spec() -> bool {
        true
    }

    open spec fn from_spec(count: QdZoCount) -> u16 {
        count.0
    }
}

/// The number of answers, or in an update the number of prerequisites.
#[derive(Debug, Clone, Copy, PartialEq, Eq)]
pub struct AnPrCount(pub u16);

impl From<u16> for AnPrCount {
    /// The counter with the given value.
    fn from(value: u16) -> (count: AnPrCount)
        ensures
            count == AnPrCount(value),
    {
        AnPrCount(value)
    }
}

impl FromSpecImpl<u16> for AnPrCount {
    open spec fn obeys_from_spec() -> bool {
        true
    }

    open spec fn from_spec(value: u16) -> AnPrCount {
        AnPrCount(value)
    }
}

impl From<AnPrCount> for u16 {
    /// The counter's value.
    fn from(count: AnPrCount) -> (value: u16)
        ensures
            value == count.0,
    {
        count.0
    }
}

impl FromSpecImpl<AnPrCount> for u16 {
    open spec fn obeys_from_spec() -> bool {
        true
    }

    open spec fn from_spec(count: AnPrCount) -> u16 {
        count.0
    }
}

/// The number of authority records, or in an update the number of updates.
#[derive(Debug, Clone, Copy, PartialEq, Eq)]
pub struct NsUpCount(pub u16);

impl From<u16> for NsUpCount {
    /// The counter with the given value.
    fn from(value: u16) -> (count: NsUpCount)
        ensures
            count == NsUpCount(value),
    {
        NsUpCount(value)
    }
}

impl FromSpecImpl<u16> for NsUpCount {
    open spec fn obeys_from_spec() -> bool {
        true
    }

    open spec fn from_spec(value: u16) -> NsUpCount {
        NsUpCount(value)
    }
}

impl From<NsUpCount> for u16 {
    /// The counter's value.
    fn from(count: NsUpCount) -> (value: u16)
        ensures
            value == count.0,
    {
        count.0
    }
}

impl FromSpecImpl<NsUpCount> for u16 {
    open spec fn obeys_from_spec() -> bool {
        true
    }

    open spec fn from_spec(count: NsUpCount) -> u16 {
        count.0
    }
}

/// The number of additional records.
#[derive(Debug, Clone, Copy, PartialEq, Eq)]
pub struct Arcount(pub u16);

impl From<u16> for Arcount {
    /// The counter with the given value.
    fn from(value: u16) -> (count: Arcount)
        ensures
            count == Arcount(value),
    {
        Arcount(value)
    }
}

impl FromSpecImpl<u16> for Arcount {
    open spec fn obeys_from_spec() -> bool {
        true
    }

    open spec fn from_spec(value: u16) -> Arcount {
        Arcount(value)
    }
}

impl From<Arcount> for u16 {
    /// The counter's value.
    fn from(count: Arcount) -> (value: u16)
        ensures
            value == count.0,
    {
        count.0
    }
}

impl FromSpecImpl<Arcount> for u16 {
    open spec fn obeys_from_spec() -> bool {
        true
    }

    open spec fn from_spec(count: Arcount) -> u16 {
        count.0
    }
}

} // verus!
