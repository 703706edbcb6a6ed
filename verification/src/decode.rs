//! The decoder: turns a raw discriminant-tagged record into a typed event,
//! rejecting unrecognized discriminants.

use vstd::prelude::*;

use crate::event::ButtonEvent;
use crate::event::Event;
use crate::event::MotionEvent;
use crate::event::SPNAV_EVENT_BUTTON;
use crate::event::SPNAV_EVENT_MOTION;

verus! {

/// A raw driver record, as plain values: the discriminant plus both
/// payload readings. The driver delivers a tagged union; only the payload
/// selected by `kind` is meaningful, the other's fields are whatever the
/// buffer happened to hold.
#[derive(Debug, Clone, Copy, PartialEq, Eq, Structural)]
pub struct RawEvent {
    /// The discriminant identifying which payload the record carries.
    pub kind: i32,
    pub x: i32,
    pub y: i32,
    pub z: i32,
    pub rx: i32,
    pub ry: i32,
    pub rz: i32,
    pub period: u32,
    pub press: i32,
    pub bnum: i32,
}

/// The decoder's one failure: the record's discriminant names no known
/// event shape.
#[derive(Debug, Clone, Copy, PartialEq, Eq, Structural)]
pub enum DecodeError {
    UnknownDiscriminant,
}

/// What `decode` returns, for every raw record: a motion discriminant
/// copies the six signed components and the period; a button discriminant
/// copies the press flag (non-zero means pressed) and the button index;
/// anything else is rejected.
pub open spec fn spec_decode(raw: RawEvent) -> Result<Event, DecodeError> {
    if raw.kind == SPNAV_EVENT_MOTION {
        Ok(Event::Motion(MotionEvent {
            x: raw.x,
            y: raw.y,
            z: raw.z,
            rx: raw.rx,
            ry: raw.ry,
            rz: raw.rz,
            period: raw.period,
        }))
    } else if raw.kind == SPNAV_EVENT_BUTTON {
        Ok(Event::Button(ButtonEvent { press: raw.press != 0, bnum: raw.bnum }))
    } else {
        Err(DecodeError::UnknownDiscriminant)
    }
}

/// Decode one raw record into a typed event. Total on the whole
/// discriminant domain; the result is an independent value, retaining
/// nothing of the record's storage.
pub fn decode(raw: &RawEvent) -> (r: Result<Event, DecodeError>)
    ensures
        r == spec_decode(*raw),
{
    if raw.kind == SPNAV_EVENT_MOTION {
        Ok(Event::Motion(MotionEvent {
            x: raw.x,
            y: raw.y,
            z: raw.z,
            rx: raw.rx,
            ry: raw.ry,
            rz: raw.rz,
            period: raw.period,
        }))
    } else if raw.kind == SPNAV_EVENT_BUTTON {
        Ok(Event::Button(ButtonEvent { press: raw.press != 0, bnum: raw.bnum }))
    } else {
        Err(DecodeError::UnknownDiscriminant)
    }
}

} // verus!
