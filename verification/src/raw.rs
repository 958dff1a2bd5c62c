//! The record that the device library keeps for one tablet tool event, as
//! plain values, and the four kinds of event that its type code can name.

use crate::state::{ButtonState, ProximityState, TipState};
use vstd::prelude::*;

verus! {

/// Type code of an event that reports changed axes.
pub const TABLET_TOOL_AXIS: u32 = 600;

/// Type code of an event that reports a tool coming into or leaving range.
pub const TABLET_TOOL_PROXIMITY: u32 = 601;

/// Type code of an event that reports the tip touching or leaving the surface.
pub const TABLET_TOOL_TIP: u32 = 602;

/// Type code of an event that reports a button of the tool changing state.
pub const TABLET_TOOL_BUTTON: u32 = 603;

/// The four kinds of tablet tool event.
#[derive(Debug, Clone, Copy, PartialEq, Eq, Hash, Structural)]
pub enum EventKind {
    /// One or more axes have changed.
    Axis,
    /// The tool has come into or left range.
    Proximity,
    /// The tip has touched or left the surface.
    Tip,
    /// A button of the tool has changed state.
    Button,
}

impl EventKind {
    /// The kind that a type code names, `None` for a code that names no tablet
    /// tool event.
    pub open spec fn spec_from_code(code: u32) -> Option<EventKind> {
        if code == TABLET_TOOL_AXIS {
            Some(EventKind::Axis)
        } else if code == TABLET_TOOL_PROXIMITY {
            Some(EventKind::Proximity)
        } else if code == TABLET_TOOL_TIP {
            Some(EventKind::Tip)
        } else if code == TABLET_TOOL_BUTTON {
            Some(EventKind::Button)
        } else {
            None
        }
    }

    /// The type code that names a kind.
    pub open spec fn spec_code(self) -> u32 {
        match self {
            EventKind::Axis => TABLET_TOOL_AXIS,
            EventKind::Proximity => TABLET_TOOL_PROXIMITY,
            EventKind::Tip => TABLET_TOOL_TIP,
            EventKind::Button => TABLET_TOOL_BUTTON,
        }
    }

    /// Reads a type code: one of the four kinds for the codes 600 to 603,
    /// nothing for any other code.
    #[verifier::when_used_as_spec(spec_from_code)]
    pub fn from_code(code: u32) -> (kind: Option<EventKind>)
        ensures
            kind == Self::spec_from_code(code),
    {
        if code == TABLET_TOOL_AXIS {
            Some(EventKind::Axis)
        } else if code == TABLET_TOOL_PROXIMITY {
            Some(EventKind::Proximity)
        } else if code == TABLET_TOOL_TIP {
            Some(EventKind::Tip)
        } else if code == TABLET_TOOL_BUTTON {
            Some(EventKind::Button)
        } else {
            None
        }
    }

    /// The type code the device library uses for this kind.
    #[verifier::when_used_as_spec(spec_code)]
    pub fn code(self) -> (code: u32)
        ensures
            code == self.spec_code(),
    {
        match self {
            EventKind::Axis => TABLET_TOOL_AXIS,
            EventKind::Proximity => TABLET_TOOL_PROXIMITY,
            EventKind::Tip => TABLET_TOOL_TIP,
            EventKind::Button => TABLET_TOOL_BUTTON,
        }
    }
}

/// Everything the device library reports about one tablet tool event.
///
/// Addresses stand for the objects that the device library owns: two records
/// are the same event exactly when their `handle` is the same. A flag is kept
/// as the integer that was reported, an axis value as the bit pattern of the
/// 64-bit floating-point number that was reported. Nothing in a record is
/// scaled, clamped or checked.
#[derive(Debug, Clone, Copy, PartialEq, Eq, Structural, Default)]
pub struct RawToolEvent {
    /// Address of the event itself; never null for a real event.
    pub handle: usize,
    /// Address of the event seen as an event of no particular kind.
    pub base_event: usize,
    /// Type code of the event.
    pub event_type: u32,
    /// Time of the event in milliseconds.
    pub time: u32,
    /// Time of the event in microseconds.
    pub time_usec: u64,
    /// Nonzero if the distance axis has changed.
    pub distance_has_changed: i32,
    /// Nonzero if the pressure axis has changed.
    pub pressure_has_changed: i32,
    /// Nonzero if the rotation axis has changed.
    pub rotation_has_changed: i32,
    /// Nonzero if the slider axis has changed.
    pub slider_has_changed: i32,
    /// Nonzero if the tilt along the x axis has changed.
    pub tilt_x_has_changed: i32,
    /// Nonzero if the tilt along the y axis has changed.
    pub tilt_y_has_changed: i32,
    /// Nonzero if the wheel has changed.
    pub wheel_has_changed: i32,
    /// Nonzero if the x coordinate has changed.
    pub x_has_changed: i32,
    /// Nonzero if the y coordinate has changed.
    pub y_has_changed: i32,
    /// Distance from the surface.
    pub distance: u64,
    /// Movement along the x axis since the last event.
    pub dx: u64,
    /// Movement along the y axis since the last event.
    pub dy: u64,
    /// Pressure on the tip.
    pub pressure: u64,
    /// Rotation about the tool's own axis.
    pub rotation: u64,
    /// Position of the slider.
    pub slider_position: u64,
    /// Tilt along the x axis.
    pub tilt_x: u64,
    /// Tilt along the y axis.
    pub tilt_y: u64,
    /// Movement of the wheel in degrees.
    pub wheel_delta: u64,
    /// Movement of the wheel in discrete steps.
    pub wheel_delta_discrete: u64,
    /// Position along the x axis.
    pub x: u64,
    /// Position along the y axis.
    pub y: u64,
    /// Address of the tool that caused the event.
    pub tool: usize,
    /// Proximity code; meaningful in a proximity event.
    pub proximity_state: u32,
    /// Tip code; meaningful in a tip event.
    pub tip_state: u32,
    /// Code of the button that changed; meaningful in a button event.
    pub button: u32,
    /// Button state code; meaningful in a button event.
    pub button_state: u32,
    /// Number of buttons held down on the seat; meaningful in a button event.
    pub seat_button_count: u32,
}

/// The axes that an event reports as changed since the tool's last event.
#[derive(Debug, Clone, Copy, PartialEq, Eq, Hash, Structural)]
pub struct ChangedAxes {
    /// The distance from the surface has changed.
    pub distance: bool,
    /// The pressure on the tip has changed.
    pub pressure: bool,
    /// The rotation has changed.
    pub rotation: bool,
    /// The slider has changed.
    pub slider: bool,
    /// The tilt along the x axis has changed.
    pub tilt_x: bool,
    /// The tilt along the y axis has changed.
    pub tilt_y: bool,
    /// The wheel has changed.
    pub wheel: bool,
    /// The x coordinate has changed.
    pub x: bool,
    /// The y coordinate has changed.
    pub y: bool,
}

impl RawToolEvent {
    /// The nine change flags of the record: a flag is set exactly when the
    /// integer reported for it is not zero.
    pub open spec fn changed_axes(&self) -> ChangedAxes {
        ChangedAxes {
            distance: self.distance_has_changed != 0,
            pressure: self.pressure_has_changed != 0,
            rotation: self.rotation_has_changed != 0,
            slider: self.slider_has_changed != 0,
            tilt_x: self.tilt_x_has_changed != 0,
            tilt_y: self.tilt_y_has_changed != 0,
            wheel: self.wheel_has_changed != 0,
            x: self.x_has_changed != 0,
            y: self.y_has_changed != 0,
        }
    }

    /// What the device library promises of every tablet tool event: its
    /// address is not null, the type code names one of the four kinds, and the
    /// state that belongs to that kind is one of its two values.
    pub open spec fn well_formed(&self) -> bool {
        &&& self.handle != 0
        &&& EventKind::spec_from_code(self.event_type) is Some
        &&& self.event_type == TABLET_TOOL_PROXIMITY ==> ProximityState::spec_from_code(
            self.proximity_state,
        ) is Some
        &&& self.event_type == TABLET_TOOL_TIP ==> TipState::spec_from_code(self.tip_state) is Some
        &&& self.event_type == TABLET_TOOL_BUTTON ==> ButtonState::spec_from_code(
            self.button_state,
        ) is Some
    }

    /// The kind that the type code of a well-formed record names.
    pub open spec fn kind(&self) -> EventKind
        recommends
            self.well_formed(),
    {
        EventKind::spec_from_code(self.event_type).unwrap()
    }

    /// Tests whether the record keeps what the device library promises.
    #[verifier::when_used_as_spec(well_formed)]
    pub fn is_well_formed(&self) -> (ok: bool)
        ensures
            ok == self.well_formed(),
    {
        if self.handle == 0 {
            return false;
        }
        match EventKind::from_code(self.event_type) {
            None => false,
            Some(EventKind::Axis) => true,
            Some(EventKind::Proximity) => ProximityState::from_code(self.proximity_state).is_some(),
            Some(EventKind::Tip) => TipState::from_code(self.tip_state).is_some(),
            Some(EventKind::Button) => ButtonState::from_code(self.button_state).is_some(),
        }
    }
}

/// Reading a type code and writing a kind undo each other: every kind is named
/// by exactly one of the codes 600 to 603, and no other code names a kind.
pub proof fn lemma_kind_codes_are_bijective(code: u32, kind: EventKind)
    ensures
        EventKind::spec_from_code(kind.spec_code()) == Some(kind),
        EventKind::spec_from_code(code) == Some(kind) <==> code == kind.spec_code(),
        EventKind::spec_from_code(code) is Some <==> TABLET_TOOL_AXIS <= code
            <= TABLET_TOOL_BUTTON,
{
}

/// The nine change flags are independent: whatever is reported for one of
/// them sets or clears that flag and leaves the other eight as they were.
pub proof fn lemma_change_flags_are_independent(raw: RawToolEvent, reported: i32)
    ensures
        (RawToolEvent { distance_has_changed: reported, ..raw }).changed_axes() == (ChangedAxes {
            distance: reported != 0,
            ..raw.changed_axes()
        }),
        (RawToolEvent { pressure_has_changed: reported, ..raw }).changed_axes() == (ChangedAxes {
            pressure: reported != 0,
            ..raw.changed_axes()
        }),
        (RawToolEvent { rotation_has_changed: reported, ..raw }).changed_axes() == (ChangedAxes {
            rotation: reported != 0,
            ..raw.changed_axes()
        }),
        (RawToolEvent { slider_has_changed: reported, ..raw }).changed_axes() == (ChangedAxes {
            slider: reported != 0,
            ..raw.changed_axes()
        }),
        (RawToolEvent { tilt_x_has_changed: reported, ..raw }).changed_axes() == (ChangedAxes {
            tilt_x: reported != 0,
            ..raw.changed_axes()
        }),
        (RawToolEvent { tilt_y_has_changed: reported, ..raw }).changed_axes() == (ChangedAxes {
            tilt_y: reported != 0,
            ..raw.changed_axes()
        }),
        (RawToolEvent { wheel_has_changed: reported, ..raw }).changed_axes() == (ChangedAxes {
            wheel: reported != 0,
            ..raw.changed_axes()
        }),
        (RawToolEvent { x_has_changed: reported, ..raw }).changed_axes() == (ChangedAxes {
            x: reported != 0,
            ..raw.changed_axes()
        }),
        (RawToolEvent { y_has_changed: reported, ..raw }).changed_axes() == (ChangedAxes {
            y: reported != 0,
            ..raw.changed_axes()
        }),
{
}

/// Every combination of the nine change flags occurs: for any choice of flags
/// there is a record that reports exactly that choice and is otherwise `raw`.
pub proof fn lemma_every_flag_combination_occurs(raw: RawToolEvent, flags: ChangedAxes)
    ensures
        exists|other: RawToolEvent|
            #![trigger other.changed_axes()]
            other.changed_axes() == flags && other.well_formed() == raw.well_formed()
                && other.handle == raw.handle && other.event_type == raw.event_type,
{
    let other = RawToolEvent {
        distance_has_changed: if flags.distance { 1i32 } else { 0i32 },
        pressure_has_changed: if flags.pressure { 1i32 } else { 0i32 },
        rotation_has_changed: if flags.rotation { 1i32 } else { 0i32 },
        slider_has_changed: if flags.slider { 1i32 } else { 0i32 },
        tilt_x_has_changed: if flags.tilt_x { 1i32 } else { 0i32 },
        tilt_y_has_changed: if flags.tilt_y { 1i32 } else { 0i32 },
        wheel_has_changed: if flags.wheel { 1i32 } else { 0i32 },
        x_has_changed: if flags.x { 1i32 } else { 0i32 },
        y_has_changed: if flags.y { 1i32 } else { 0i32 },
        ..raw
    };
    assert(other.changed_axes() == flags);
}

} // verus!
