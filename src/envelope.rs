//! The envelope that carries a raised payload through the unwinder, and the
//! validation that decides whether a record coming back is this producer's own.
use vstd::prelude::*;

use crate::guard::{DropGuard, GuardState};
use crate::tag::{own_tag, producer_tag, tags_equal};

verus! {

/// The value of the sentinel byte that validation markers point at. Only its
/// address matters, never this value.
pub const SENTINEL_VALUE: u8 = 0;

/// A validation marker: a pointer, held as the address it points at and the
/// byte found there.
#[derive(PartialEq, Eq, Structural, Clone, Copy, Debug)]
pub struct Marker {
    pub addr: usize,
    pub target: u8,
}

/// This producer, as a catch boundary sees it: the address of the single
/// process-wide sentinel byte. The producer tag is fixed per build.
#[derive(PartialEq, Eq, Structural, Clone, Copy, Debug)]
pub struct Producer {
    pub sentinel: usize,
}

/// A payload with the guard that goes with it while it propagates.
pub struct RustPanic<P>(pub P, pub DropGuard);

/// The record handed to the unwinder: the tag in the unwinder's header, the
/// validation marker, then the payload with its guard.
pub struct ExceptionWithPayload<P> {
    pub tag: [u8; 8],
    pub marker: Marker,
    pub payload: RustPanic<P>,
}

impl Producer {
    /// The marker that this producer stores in every envelope it makes.
    pub open spec fn marker(self) -> Marker {
        Marker { addr: self.sentinel, target: SENTINEL_VALUE }
    }

    /// Whether `ex` is authentically this producer's: its tag is this
    /// producer's tag, and its marker points at this producer's sentinel.
    /// The byte the marker points at plays no part.
    pub open spec fn owns<P>(self, ex: ExceptionWithPayload<P>) -> bool {
        ex.tag@ == producer_tag() && ex.marker.addr == self.sentinel
    }

    /// Whether `ex` is the envelope that this producer makes around `v`: its
    /// tag, its marker at the sentinel, the payload, and the guard armed.
    pub open spec fn is_envelope_of<P>(self, ex: ExceptionWithPayload<P>, v: P) -> bool {
        &&& ex.tag@ == producer_tag()
        &&& ex.marker == self.marker()
        &&& ex.payload.0 == v
        &&& ex.payload.1.state == GuardState::Armed
    }

    /// Checks a record that came back from the unwinder: first its tag, byte
    /// for byte, and only if that matches, its marker by address.
    pub fn validate<P>(&self, ex: &ExceptionWithPayload<P>) -> (r: bool)
        ensures
            r == self.owns(*ex),
    {
        let tag = own_tag();
        if !tags_equal(&ex.tag, &tag) {
            return false;
        }
        ex.marker.addr == self.sentinel
    }
}

impl<P> RustPanic<P> {
    /// Wraps a payload into an envelope of `producer`, with its guard armed.
    pub fn wrap(producer: &Producer, this: P) -> (r: ExceptionWithPayload<P>)
        ensures
            producer.is_envelope_of(r, this),
    {
        ExceptionWithPayload {
            tag: own_tag(),
            marker: Marker { addr: producer.sentinel, target: SENTINEL_VALUE },
            payload: RustPanic(this, DropGuard::armed()),
        }
    }

    /// Takes the payload back out of a record, if and only if the record is
    /// `producer`'s own; a record that fails validation is never unwrapped.
    pub fn unwrap(producer: &Producer, ex: ExceptionWithPayload<P>) -> (r: Option<RustPanic<P>>)
        ensures
            r == if producer.owns(ex) { Some(ex.payload) } else { None::<RustPanic<P>> },
    {
        if producer.validate(&ex) {
            Some(ex.payload)
        } else {
            None
        }
    }
}

} // verus!
