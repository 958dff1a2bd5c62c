//! What every tablet tool event can do, whichever of the four kinds it is.
//!
//! A type takes part by implementing [`AsRaw`]; [`TabletToolEventTrait`] is
//! then implemented for it, so a further kind of event needs no change here.

use crate::event::TabletToolEvent;
use crate::raw::RawToolEvent;
use crate::tool::TabletTool;
use crate::transform::TransformRequest;
use vstd::prelude::*;

verus! {

/// A value that stands for one tablet tool event of the device library. Its
/// view is the record of that event.
pub trait AsRaw: View<V = RawToolEvent> {
    /// The record of the event, which keeps what the device library promises.
    /// Borrowing it changes nothing.
    fn as_raw(&self) -> (raw: &RawToolEvent)
        ensures
            *raw == self@,
            raw.well_formed(),
    ;
}

/// The accessors that all tablet tool events share. Each returns one field of
/// the record as it was reported: a time, a change flag, the bit pattern of an
/// axis value, the tool, or the operation that transforms a coordinate.
pub trait TabletToolEventTrait: AsRaw {
    /// Time of the event in milliseconds.
    fn time(&self) -> (time: u32)
        ensures
            time == self@.time,
    {
        self.as_raw().time
    }

    /// Time of the event in microseconds.
    fn time_usec(&self) -> (time: u64)
        ensures
            time == self@.time_usec,
    {
        self.as_raw().time_usec
    }

    /// Whether the distance axis has changed since the tool's last event.
    fn distance_has_changed(&self) -> (changed: bool)
        ensures
            changed == self@.changed_axes().distance,
    {
        self.as_raw().distance_has_changed != 0
    }

    /// Bit pattern of the distance from the surface.
    fn distance(&self) -> (bits: u64)
        ensures
            bits == self@.distance,
    {
        self.as_raw().distance
    }

    /// Bit pattern of the movement along the x axis since the last event.
    fn dx(&self) -> (bits: u64)
        ensures
            bits == self@.dx,
    {
        self.as_raw().dx
    }

    /// Bit pattern of the movement along the y axis since the last event.
    fn dy(&self) -> (bits: u64)
        ensures
            bits == self@.dy,
    {
        self.as_raw().dy
    }

    /// Whether the pressure axis has changed since the tool's last event.
    fn pressure_has_changed(&self) -> (changed: bool)
        ensures
            changed == self@.changed_axes().pressure,
    {
        self.as_raw().pressure_has_changed != 0
    }

    /// Bit pattern of the pressure on the tip.
    fn pressure(&self) -> (bits: u64)
        ensures
            bits == self@.pressure,
    {
        self.as_raw().pressure
    }

    /// Whether the rotation axis has changed since the tool's last event.
    fn rotation_has_changed(&self) -> (changed: bool)
        ensures
            changed == self@.changed_axes().rotation,
    {
        self.as_raw().rotation_has_changed != 0
    }

    /// Bit pattern of the rotation about the tool's own axis.
    fn rotation(&self) -> (bits: u64)
        ensures
            bits == self@.rotation,
    {
        self.as_raw().rotation
    }

    /// Whether the slider axis has changed since the tool's last event.
    fn slider_has_changed(&self) -> (changed: bool)
        ensures
            changed == self@.changed_axes().slider,
    {
        self.as_raw().slider_has_changed != 0
    }

    /// Bit pattern of the position of the slider.
    fn slider_position(&self) -> (bits: u64)
        ensures
            bits == self@.slider_position,
    {
        self.as_raw().slider_position
    }

    /// Whether the tilt along the x axis has changed since the tool's last event.
    fn tilt_x_has_changed(&self) -> (changed: bool)
        ensures
            changed == self@.changed_axes().tilt_x,
    {
        self.as_raw().tilt_x_has_changed != 0
    }

    /// Whether the tilt along the y axis has changed since the tool's last event.
    fn tilt_y_has_changed(&self) -> (changed: bool)
        ensures
            changed == self@.changed_axes().tilt_y,
    {
        self.as_raw().tilt_y_has_changed != 0
    }

    /// Bit pattern of the tilt along the x axis.
    fn tilt_x(&self) -> (bits: u64)
        ensures
            bits == self@.tilt_x,
    {
        self.as_raw().tilt_x
    }

    /// Bit pattern of the tilt along the y axis.
    fn tilt_y(&self) -> (bits: u64)
        ensures
            bits == self@.tilt_y,
    {
        self.as_raw().tilt_y
    }

    /// Whether the wheel has changed since the tool's last event.
    fn wheel_has_changed(&self) -> (changed: bool)
        ensures
            changed == self@.changed_axes().wheel,
    {
        self.as_raw().wheel_has_changed != 0
    }

    /// Bit pattern of the movement of the wheel in degrees.
    fn wheel_delta(&self) -> (bits: u64)
        ensures
            bits == self@.wheel_delta,
    {
        self.as_raw().wheel_delta
    }

    /// Bit pattern of the movement of the wheel in discrete steps.
    fn wheel_delta_discrete(&self) -> (bits: u64)
        ensures
            bits == self@.wheel_delta_discrete,
    {
        self.as_raw().wheel_delta_discrete
    }

    /// Whether the x coordinate has changed since the tool's last event.
    fn x_has_changed(&self) -> (changed: bool)
        ensures
            changed == self@.changed_axes().x,
    {
        self.as_raw().x_has_changed != 0
    }

    /// Whether the y coordinate has changed since the tool's last event.
    fn y_has_changed(&self) -> (changed: bool)
        ensures
            changed == self@.changed_axes().y,
    {
        self.as_raw().y_has_changed != 0
    }

    /// Bit pattern of the position along the x axis.
    fn x(&self) -> (bits: u64)
        ensures
            bits == self@.x,
    {
        self.as_raw().x
    }

    /// Bit pattern of the position along the y axis.
    fn y(&self) -> (bits: u64)
        ensures
            bits == self@.y,
    {
        self.as_raw().y
    }

    /// The operation that gives the x coordinate of this event on a screen
    /// `width` pixels wide.
    fn x_transformed(&self, width: u32) -> (request: TransformRequest)
        ensures
            request == TransformRequest::spec_x(self@.handle, width),
    {
        TransformRequest::x(self.as_raw().handle, width)
    }

    /// The operation that gives the y coordinate of this event on a screen
    /// `height` pixels high.
    fn y_transformed(&self, height: u32) -> (request: TransformRequest)
        ensures
            request == TransformRequest::spec_y(self@.handle, height),
    {
        TransformRequest::y(self.as_raw().handle, height)
    }

    /// The tool that caused this event. The tool is a value of its own and may
    /// be kept when the event is gone.
    fn tool(&self) -> (tool: TabletTool)
        ensures
            tool@ == self@.tool,
    {
        TabletTool::from_raw(self.as_raw().tool)
    }

    /// Turns the event into the event of one of four kinds that its type code
    /// names. The record stays the same, and so does every accessor's answer.
    fn into_tablet_tool_event(self) -> (event: TabletToolEvent) where Self: Sized
        ensures
            event == TabletToolEvent::spec_from_raw(self@),
            event@ == self@,
            event.spec_kind() == self@.kind(),
    {
        let raw = *self.as_raw();
        TabletToolEvent::from_raw(raw)
    }
}

impl<T: AsRaw> TabletToolEventTrait for T {

}

} // verus!
