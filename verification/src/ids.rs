//! Identifiers and timestamps shared by every part of the control plane.

use vstd::prelude::*;

verus! {

/// A point in time, in nanoseconds since the UNIX epoch.
#[derive(Debug, Clone, Copy, PartialEq, Eq, Structural)]
pub struct UnixNanos {
    pub nanos: u64,
}

impl From<u64> for UnixNanos {
    fn from(nanos: u64) -> (timestamp: Self) {
        UnixNanos { nanos }
    }
}

impl vstd::std_specs::convert::FromSpecImpl<u64> for UnixNanos {
    open spec fn obeys_from_spec() -> bool {
        true
    }

    open spec fn from_spec(nanos: u64) -> Self {
        UnixNanos { nanos }
    }
}

/// The identifier of a trader, such as `TRADER-001`.
#[derive(Debug, PartialEq, Eq, Hash)]
pub struct TraderId {
    value: String,
}

impl View for TraderId {
    type V = Seq<char>;

    closed spec fn view(&self) -> Seq<char> {
        self.value@
    }
}

impl Clone for TraderId {
    fn clone(&self) -> (id: Self)
        ensures
            id@ == self@,
    {
        TraderId { value: self.value.clone() }
    }
}

impl TraderId {
    /// Makes an identifier of `value`.
    pub fn new(value: &str) -> (id: Self)
        ensures
            id@ == value@,
    {
        TraderId { value: value.to_string() }
    }

    /// The identifier's text.
    pub fn as_str(&self) -> (text: &str)
        ensures
            text@ == self@,
    {
        self.value.as_str()
    }
}

/// The identifier of a strategy, such as `EMACross-001`.
#[derive(Debug, PartialEq, Eq, Hash)]
pub struct StrategyId {
    value: String,
}

impl View for StrategyId {
    type V = Seq<char>;

    closed spec fn view(&self) -> Seq<char> {
        self.value@
    }
}

impl Clone for StrategyId {
    fn clone(&self) -> (id: Self)
        ensures
            id@ == self@,
    {
        StrategyId { value: self.value.clone() }
    }
}

impl StrategyId {
    /// Makes an identifier of `value`.
    pub fn new(value: &str) -> (id: Self)
        ensures
            id@ == value@,
    {
        StrategyId { value: value.to_string() }
    }

    /// The identifier's text.
    pub fn as_str(&self) -> (text: &str)
        ensures
            text@ == self@,
    {
        self.value.as_str()
    }
}

/// An identifier of an instance, command or event, held as text. Any text is taken; whoever
/// issues identifiers sees to it that they are version 4 UUIDs.
#[derive(Debug, PartialEq, Eq, Hash)]
pub struct UUID4 {
    value: String,
}

impl View for UUID4 {
    type V = Seq<char>;

    closed spec fn view(&self) -> Seq<char> {
        self.value@
    }
}

impl Clone for UUID4 {
    fn clone(&self) -> (id: Self)
        ensures
            id@ == self@,
    {
        UUID4 { value: self.value.clone() }
    }
}

impl UUID4 {
    /// Makes an identifier of `value` as it stands.
    pub fn from_text(value: &str) -> (id: Self)
        ensures
            id@ == value@,
    {
        UUID4 { value: value.to_string() }
    }

    /// The identifier's text.
    pub fn as_str(&self) -> (text: &str)
        ensures
            text@ == self@,
    {
        self.value.as_str()
    }
}

/// A timestamp made of nanoseconds holds them all.
pub proof fn law_timestamps_hold_their_nanoseconds(nanos: u64, timestamp: UnixNanos)
    requires
        call_ensures(UnixNanos::from, (nanos,), timestamp),
    ensures
        timestamp.nanos == nanos,
{
}

} // verus!
