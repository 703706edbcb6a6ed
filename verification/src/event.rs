//! The typed event model: decoded driver notifications and the filter used
//! to select queued events for a bulk discard.

use vstd::prelude::*;

verus! {

/// The discriminant codes of the driver's wire protocol.
pub const SPNAV_EVENT_ANY: i32 = 0;
pub const SPNAV_EVENT_MOTION: i32 = 1;
pub const SPNAV_EVENT_BUTTON: i32 = 2;

/// Selects which queued raw events a bulk discard drops; a request
/// parameter only, never stored.
#[derive(Debug, Clone, Copy, PartialEq, Eq, Structural)]
pub enum EventType {
    Any,
    Motion,
    Button,
}

impl EventType {
    /// The filter code the driver protocol assigns to this filter.
    pub open spec fn spec_code(self) -> i32 {
        match self {
            EventType::Any => SPNAV_EVENT_ANY,
            EventType::Motion => SPNAV_EVENT_MOTION,
            EventType::Button => SPNAV_EVENT_BUTTON,
        }
    }

    /// The filter code to hand to the driver's discard operation.
    pub fn code(self) -> (c: i32)
        ensures
            c == self.spec_code(),
    {
        match self {
            EventType::Any => SPNAV_EVENT_ANY,
            EventType::Motion => SPNAV_EVENT_MOTION,
            EventType::Button => SPNAV_EVENT_BUTTON,
        }
    }

    /// Whether a raw record with discriminant `kind` falls under this
    /// filter: `Any` admits every record, the others exactly their own
    /// discriminant.
    pub open spec fn spec_admits(self, kind: i32) -> bool {
        self is Any || self.spec_code() == kind
    }

    /// Whether a queued record with discriminant `kind` would be dropped
    /// by a discard request carrying this filter.
    pub fn admits(self, kind: i32) -> (b: bool)
        ensures
            b == self.spec_admits(kind),
    {
        match self {
            EventType::Any => true,
            _ => self.code() == kind,
        }
    }
}

/// One motion notification: three signed translation components, three
/// signed rotation components, and the time since the previous motion.
#[derive(Debug, Clone, PartialEq, Eq, Structural)]
pub struct MotionEvent {
    pub x: i32,
    pub y: i32,
    pub z: i32,
    pub rx: i32,
    pub ry: i32,
    pub rz: i32,
    pub period: u32,
}

impl MotionEvent {
    /// The translation components, grouped as a triple.
    pub fn t(&self) -> (t: (i32, i32, i32))
        ensures
            t == (self.x, self.y, self.z),
    {
        (self.x, self.y, self.z)
    }

    /// The rotation components, grouped as a triple.
    pub fn r(&self) -> (r: (i32, i32, i32))
        ensures
            r == (self.rx, self.ry, self.rz),
    {
        (self.rx, self.ry, self.rz)
    }
}

/// One button notification: whether the button went down, and its index.
#[derive(Debug, Clone, PartialEq, Eq, Structural)]
pub struct ButtonEvent {
    pub press: bool,
    pub bnum: i32,
}

/// A decoded, immutable driver notification; always fully populated
/// before a caller sees it.
#[derive(Debug, Clone, PartialEq, Eq, Structural)]
pub enum Event {
    Motion(MotionEvent),
    Button(ButtonEvent),
}

} // verus!
