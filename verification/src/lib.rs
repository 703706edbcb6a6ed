pub mod decode;
pub mod event;
pub mod manager;

pub use decode::{decode, DecodeError, RawEvent};
pub use event::{ButtonEvent, Event, EventType, MotionEvent};
pub use manager::{close_result, AcquireError, Connection, Manager, WaitError};
