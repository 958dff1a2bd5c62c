//! Typed tablet tool events.
//!
//! A tablet tool event arrives from the device library as an untyped record
//! with a type code. This crate classifies such a record into one of four
//! typed events (axis update, proximity change, tip contact change, button
//! change), decodes the two-valued states it carries, and gives every event
//! the same set of accessors.

pub mod capability;
pub mod event;
pub mod hashing;
pub mod raw;
pub mod state;
pub mod tool;
pub mod transform;

pub use capability::{AsRaw, TabletToolEventTrait};
pub use event::{
    TabletToolAxisEvent, TabletToolButtonEvent, TabletToolEvent, TabletToolProximityEvent,
    TabletToolTipEvent,
};
pub use raw::{ChangedAxes, EventKind, RawToolEvent};
pub use state::{ButtonState, ProximityState, TipState};
pub use tool::TabletTool;
pub use transform::{TransformAxis, TransformRequest};
