//! The side of a conformance test harness that the server sees: the harness
//! runs the server on a thread of its own and sends it events over a
//! channel.
use crate::geometry::{FixedPoint, Point};
use vstd::prelude::*;

pub mod main_loop;

verus! {

/// What the harness asks of the server.
#[derive(Clone, Copy, PartialEq, Eq, Debug)]
pub enum WlcsEvent {
    /// Stop the server.
    Exit,
    /// A client has connected; the harness knows it as `client_id`. Its
    /// socket goes to the protocol runtime.
    NewClient { client_id: i32 },
    /// Put the window of the given surface of the given client at `location`.
    PositionWindow { client_id: i32, surface_id: u32, location: Point },
    /// A pointer device is there.
    NewPointer { device_id: u32 },
    /// Move the pointer to `location`.
    PointerMoveAbsolute { device_id: u32, location: FixedPoint },
    /// Move the pointer by `delta`.
    PointerMoveRelative { device_id: u32, delta: FixedPoint },
    /// Press a pointer button.
    PointerButtonDown { device_id: u32, button_id: i32 },
    /// Release a pointer button.
    PointerButtonUp { device_id: u32, button_id: i32 },
    /// A pointer device is gone.
    PointerRemoved { device_id: u32 },
    /// A touch device is there.
    NewTouch { device_id: u32 },
    /// A touch point is down.
    TouchDown { device_id: u32, location: FixedPoint },
    /// A touch point moved.
    TouchMove { device_id: u32, location: FixedPoint },
    /// A touch point is up.
    TouchUp { device_id: u32 },
    /// A touch device is gone.
    TouchRemoved { device_id: u32 },
}

} // verus!
