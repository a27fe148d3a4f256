//! An optional bound on simultaneous in-flight requests.
//!
//! Concurrent dispatch fans out one execution unit per scheduled request
//! with no ceiling; that is the default and is kept.  As a safety valve a
//! caller may instead drive the fan-out through a [`FlightBound`]: a unit
//! may only launch while there is room under the bound, and settles back
//! when it finishes, so the number in flight never exceeds the maximum.
//! An unbounded limiter always has room.

use vstd::prelude::*;

verus! {

/// The counting limiter: how many units are in flight, against an
/// optional cap.
pub struct FlightBound {
    cap: Option<usize>,
    in_flight: usize,
}

impl FlightBound {
    /// The configured bound; `None` is unbounded.
    pub closed spec fn spec_cap(self) -> Option<usize> {
        self.cap
    }

    /// How many launched units have not settled yet.
    pub closed spec fn spec_in_flight(self) -> nat {
        self.in_flight as nat
    }

    /// The invariant: a bounded limiter never has more units in flight
    /// than its cap.
    pub open spec fn wf(self) -> bool {
        self.spec_cap() matches Some(c) ==> self.spec_in_flight() <= c
    }

    /// Room for one more launch.
    pub open spec fn spec_has_room(self) -> bool {
        match self.spec_cap() {
            Option::None => true,
            Option::Some(c) => self.spec_in_flight() < c,
        }
    }

    /// A fresh limiter with the given cap and nothing in flight.
    pub fn new(cap: Option<usize>) -> (g: FlightBound)
        ensures
            g.spec_cap() == cap,
            g.spec_in_flight() == 0,
            g.wf(),
    {
        FlightBound { cap, in_flight: 0 }
    }

    /// The unbounded limiter: the default fan-out behaviour, every launch
    /// allowed.
    pub fn unbounded() -> (g: FlightBound)
        ensures
            g.spec_cap() is None,
            g.spec_in_flight() == 0,
            g.wf(),
    {
        FlightBound { cap: None, in_flight: 0 }
    }

    /// Whether one more unit may launch now.
    pub fn has_room(&self) -> (r: bool)
        ensures
            r == self.spec_has_room(),
    {
        match self.cap {
            None => true,
            Some(c) => self.in_flight < c,
        }
    }

    /// Record one launch.  Only allowed while there is room, so a bounded
    /// limiter keeps its invariant: in-flight count never above the cap.
    pub fn launch(&mut self)
        requires
            old(self).wf(),
            old(self).spec_has_room(),
            old(self).spec_in_flight() < usize::MAX,
        ensures
            final(self).wf(),
            final(self).spec_cap() == old(self).spec_cap(),
            final(self).spec_in_flight() == old(self).spec_in_flight() + 1,
    {
        self.in_flight = self.in_flight + 1;
    }

    /// Record that one launched unit finished, freeing its slot.
    pub fn settle(&mut self)
        requires
            old(self).wf(),
            old(self).spec_in_flight() > 0,
        ensures
            final(self).wf(),
            final(self).spec_cap() == old(self).spec_cap(),
            final(self).spec_in_flight() == old(self).spec_in_flight() - 1,
    {
        self.in_flight = self.in_flight - 1;
    }
}

} // verus!
