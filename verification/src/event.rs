//! The four kinds of tablet tool event, and the event of any of the four kinds.
//!
//! Each value wraps the record of one event. A record's type code decides
//! which of the four types can wrap it, so a value of a type is always an
//! event of that type's kind. Two values are equal when they stand for the
//! same event of the device library, that is when their records have the same
//! address, whatever else the records hold.

use crate::capability::AsRaw;
use crate::raw::{
    EventKind, RawToolEvent, TABLET_TOOL_AXIS, TABLET_TOOL_BUTTON, TABLET_TOOL_PROXIMITY,
    TABLET_TOOL_TIP,
};
use crate::state::{ButtonState, ProximityState, TipState};
use std::hash::{Hash, Hasher};
use vstd::pervasive::unreached;
use vstd::prelude::*;
use vstd::std_specs::cmp::PartialEqSpec;

verus! {

/// An event that reports changed axes of a tool.
#[derive(Debug)]
pub struct TabletToolAxisEvent {
    raw: RawToolEvent,
}

impl View for TabletToolAxisEvent {
    type V = RawToolEvent;

    /// The record of the event.
    closed spec fn view(&self) -> RawToolEvent {
        self.raw
    }
}

impl TabletToolAxisEvent {
    /// Holds of the records that are an axis event: those that keep what the
    /// device library promises and whose type code is that of an axis event.
    pub open spec fn accepts(raw: RawToolEvent) -> bool {
        raw.well_formed() && raw.event_type == TABLET_TOOL_AXIS
    }

    /// Every value wraps a record that is an axis event.
    #[verifier::type_invariant]
    pub open spec fn wf(&self) -> bool {
        Self::accepts(self@)
    }

    /// Sees a record as an axis event. The record is taken as it is: see
    /// [`RawToolEvent::is_well_formed`] for the test that a caller owes.
    pub fn from_raw(raw: RawToolEvent) -> (event: Self)
        requires
            Self::accepts(raw),
        ensures
            event@ == raw,
            event.wf(),
    {
        TabletToolAxisEvent { raw }
    }

    /// Address of this event seen as an event of no particular kind.
    pub fn as_raw_event(&self) -> (base: usize)
        ensures
            base == self@.base_event,
    {
        self.raw.base_event
    }
}

impl AsRaw for TabletToolAxisEvent {
    fn as_raw(&self) -> (raw: &RawToolEvent) {
        proof {
            use_type_invariant(self);
        }
        &self.raw
    }
}

impl Clone for TabletToolAxisEvent {
    fn clone(&self) -> (copy: Self)
        ensures
            copy == *self,
    {
        proof {
            use_type_invariant(self);
        }
        TabletToolAxisEvent { raw: self.raw }
    }
}

impl PartialEq for TabletToolAxisEvent {
    fn eq(&self, other: &Self) -> (equal: bool) {
        self.raw.handle == other.raw.handle
    }
}

impl Eq for TabletToolAxisEvent {

}

impl vstd::std_specs::cmp::PartialEqSpecImpl for TabletToolAxisEvent {
    open spec fn obeys_eq_spec() -> bool {
        true
    }

    /// Two values are equal exactly when they stand for the same event.
    open spec fn eq_spec(&self, other: &Self) -> bool {
        self@.handle == other@.handle
    }
}

impl Hash for TabletToolAxisEvent {
    /// Feeds the address of the event to the hasher, and nothing else.
    fn hash<H: Hasher>(&self, state: &mut H) {
        self.raw.handle.hash(state)
    }
}

/// An event that reports a tool coming into range of the tablet or leaving it.
#[derive(Debug)]
pub struct TabletToolProximityEvent {
    raw: RawToolEvent,
}

impl View for TabletToolProximityEvent {
    type V = RawToolEvent;

    /// The record of the event.
    closed spec fn view(&self) -> RawToolEvent {
        self.raw
    }
}

impl TabletToolProximityEvent {
    /// Holds of the records that are a proximity event: those that keep what the
    /// device library promises and whose type code is that of a proximity event.
    pub open spec fn accepts(raw: RawToolEvent) -> bool {
        raw.well_formed() && raw.event_type == TABLET_TOOL_PROXIMITY
    }

    /// Every value wraps a record that is a proximity event.
    #[verifier::type_invariant]
    pub open spec fn wf(&self) -> bool {
        Self::accepts(self@)
    }

    /// Sees a record as a proximity event. The record is taken as it is: see
    /// [`RawToolEvent::is_well_formed`] for the test that a caller owes.
    pub fn from_raw(raw: RawToolEvent) -> (event: Self)
        requires
            Self::accepts(raw),
        ensures
            event@ == raw,
            event.wf(),
    {
        TabletToolProximityEvent { raw }
    }

    /// Address of this event seen as an event of no particular kind.
    pub fn as_raw_event(&self) -> (base: usize)
        ensures
            base == self@.base_event,
    {
        self.raw.base_event
    }

    /// Whether the tool has come into range or left it.
    pub fn proximity_state(&self) -> (state: ProximityState)
        ensures
            ProximityState::spec_from_code(self@.proximity_state) == Some(state),
    {
        proof {
            use_type_invariant(self);
        }
        match ProximityState::from_code(self.raw.proximity_state) {
            Some(state) => state,
            None => unreached(),
        }
    }
}

impl AsRaw for TabletToolProximityEvent {
    fn as_raw(&self) -> (raw: &RawToolEvent) {
        proof {
            use_type_invariant(self);
        }
        &self.raw
    }
}

impl Clone for TabletToolProximityEvent {
    fn clone(&self) -> (copy: Self)
        ensures
            copy == *self,
    {
        proof {
            use_type_invariant(self);
        }
        TabletToolProximityEvent { raw: self.raw }
    }
}

impl PartialEq for TabletToolProximityEvent {
    fn eq(&self, other: &Self) -> (equal: bool) {
        self.raw.handle == other.raw.handle
    }
}

impl Eq for TabletToolProximityEvent {

}

impl vstd::std_specs::cmp::PartialEqSpecImpl for TabletToolProximityEvent {
    open spec fn obeys_eq_spec() -> bool {
        true
    }

    /// Two values are equal exactly when they stand for the same event.
    open spec fn eq_spec(&self, other: &Self) -> bool {
        self@.handle == other@.handle
    }
}

impl Hash for TabletToolProximityEvent {
    /// Feeds the address of the event to the hasher, and nothing else.
    fn hash<H: Hasher>(&self, state: &mut H) {
        self.raw.handle.hash(state)
    }
}

/// An event that reports the tip of a tool touching the surface or leaving it.
#[derive(Debug)]
pub struct TabletToolTipEvent {
    raw: RawToolEvent,
}

impl View for TabletToolTipEvent {
    type V = RawToolEvent;

    /// The record of the event.
    closed spec fn view(&self) -> RawToolEvent {
        self.raw
    }
}

impl TabletToolTipEvent {
    /// Holds of the records that are a tip event: those that keep what the
    /// device library promises and whose type code is that of a tip event.
    pub open spec fn accepts(raw: RawToolEvent) -> bool {
        raw.well_formed() && raw.event_type == TABLET_TOOL_TIP
    }

    /// Every value wraps a record that is a tip event.
    #[verifier::type_invariant]
    pub open spec fn wf(&self) -> bool {
        Self::accepts(self@)
    }

    /// Sees a record as a tip event. The record is taken as it is: see
    /// [`RawToolEvent::is_well_formed`] for the test that a caller owes.
    pub fn from_raw(raw: RawToolEvent) -> (event: Self)
        requires
            Self::accepts(raw),
        ensures
            event@ == raw,
            event.wf(),
    {
        TabletToolTipEvent { raw }
    }

    /// Address of this event seen as an event of no particular kind.
    pub fn as_raw_event(&self) -> (base: usize)
        ensures
            base == self@.base_event,
    {
        self.raw.base_event
    }

    /// Whether the tip has touched the surface or left it.
    pub fn tip_state(&self) -> (state: TipState)
        ensures
            TipState::spec_from_code(self@.tip_state) == Some(state),
    {
        proof {
            use_type_invariant(self);
        }
        match TipState::from_code(self.raw.tip_state) {
            Some(state) => state,
            None => unreached(),
        }
    }
}

impl AsRaw for TabletToolTipEvent {
    fn as_raw(&self) -> (raw: &RawToolEvent) {
        proof {
            use_type_invariant(self);
        }
        &self.raw
    }
}

impl Clone for TabletToolTipEvent {
    fn clone(&self) -> (copy: Self)
        ensures
            copy == *self,
    {
        proof {
            use_type_invariant(self);
        }
        TabletToolTipEvent { raw: self.raw }
    }
}

impl PartialEq for TabletToolTipEvent {
    fn eq(&self, other: &Self) -> (equal: bool) {
        self.raw.handle == other.raw.handle
    }
}

impl Eq for TabletToolTipEvent {

}

impl vstd::std_specs::cmp::PartialEqSpecImpl for TabletToolTipEvent {
    open spec fn obeys_eq_spec() -> bool {
        true
    }

    /// Two values are equal exactly when they stand for the same event.
    open spec fn eq_spec(&self, other: &Self) -> bool {
        self@.handle == other@.handle
    }
}

impl Hash for TabletToolTipEvent {
    /// Feeds the address of the event to the hasher, and nothing else.
    fn hash<H: Hasher>(&self, state: &mut H) {
        self.raw.handle.hash(state)
    }
}

/// An event that reports a button of a tool changing state.
#[derive(Debug)]
pub struct TabletToolButtonEvent {
    raw: RawToolEvent,
}

impl View for TabletToolButtonEvent {
    type V = RawToolEvent;

    /// The record of the event.
    closed spec fn view(&self) -> RawToolEvent {
        self.raw
    }
}

impl TabletToolButtonEvent {
    /// Holds of the records that are a button event: those that keep what the
    /// device library promises and whose type code is that of a button event.
    pub open spec fn accepts(raw: RawToolEvent) -> bool {
        raw.well_formed() && raw.event_type == TABLET_TOOL_BUTTON
    }

    /// Every value wraps a record that is a button event.
    #[verifier::type_invariant]
    pub open spec fn wf(&self) -> bool {
        Self::accepts(self@)
    }

    /// Sees a record as a button event. The record is taken as it is: see
    /// [`RawToolEvent::is_well_formed`] for the test that a caller owes.
    pub fn from_raw(raw: RawToolEvent) -> (event: Self)
        requires
            Self::accepts(raw),
        ensures
            event@ == raw,
            event.wf(),
    {
        TabletToolButtonEvent { raw }
    }

    /// Address of this event seen as an event of no particular kind.
    pub fn as_raw_event(&self) -> (base: usize)
        ensures
            base == self@.base_event,
    {
        self.raw.base_event
    }

    /// Code of the button that changed state.
    pub fn button(&self) -> (button: u32)
        ensures
            button == self@.button,
    {
        self.raw.button
    }

    /// Number of buttons that are held down on the seat after this event.
    pub fn seat_button_count(&self) -> (count: u32)
        ensures
            count == self@.seat_button_count,
    {
        self.raw.seat_button_count
    }

    /// Whether the button was pressed or released.
    pub fn button_state(&self) -> (state: ButtonState)
        ensures
            ButtonState::spec_from_code(self@.button_state) == Some(state),
    {
        proof {
            use_type_invariant(self);
        }
        match ButtonState::from_code(self.raw.button_state) {
            Some(state) => state,
            None => unreached(),
        }
    }
}

impl AsRaw for TabletToolButtonEvent {
    fn as_raw(&self) -> (raw: &RawToolEvent) {
        proof {
            use_type_invariant(self);
        }
        &self.raw
    }
}

impl Clone for TabletToolButtonEvent {
    fn clone(&self) -> (copy: Self)
        ensures
            copy == *self,
    {
        proof {
            use_type_invariant(self);
        }
        TabletToolButtonEvent { raw: self.raw }
    }
}

impl PartialEq for TabletToolButtonEvent {
    fn eq(&self, other: &Self) -> (equal: bool) {
        self.raw.handle == other.raw.handle
    }
}

impl Eq for TabletToolButtonEvent {

}

impl vstd::std_specs::cmp::PartialEqSpecImpl for TabletToolButtonEvent {
    open spec fn obeys_eq_spec() -> bool {
        true
    }

    /// Two values are equal exactly when they stand for the same event.
    open spec fn eq_spec(&self, other: &Self) -> bool {
        self@.handle == other@.handle
    }
}

impl Hash for TabletToolButtonEvent {
    /// Feeds the address of the event to the hasher, and nothing else.
    fn hash<H: Hasher>(&self, state: &mut H) {
        self.raw.handle.hash(state)
    }
}

/// A tablet tool event of any of the four kinds. The variant is always the one
/// that the type code of the record names.
#[derive(Debug, Hash)]
pub enum TabletToolEvent {
    /// One or more axes have changed.
    Axis(TabletToolAxisEvent),
    /// The tool has come into or left range.
    Proximity(TabletToolProximityEvent),
    /// The tip has touched or left the surface.
    Tip(TabletToolTipEvent),
    /// A button of the tool has changed state.
    Button(TabletToolButtonEvent),
}

impl View for TabletToolEvent {
    type V = RawToolEvent;

    /// The record of the event, whichever variant holds it.
    open spec fn view(&self) -> RawToolEvent {
        match self {
            TabletToolEvent::Axis(event) => event@,
            TabletToolEvent::Proximity(event) => event@,
            TabletToolEvent::Tip(event) => event@,
            TabletToolEvent::Button(event) => event@,
        }
    }
}

impl TabletToolEvent {
    /// The kind of the event: the variant it is.
    pub open spec fn spec_kind(&self) -> EventKind {
        match self {
            TabletToolEvent::Axis(_) => EventKind::Axis,
            TabletToolEvent::Proximity(_) => EventKind::Proximity,
            TabletToolEvent::Tip(_) => EventKind::Tip,
            TabletToolEvent::Button(_) => EventKind::Button,
        }
    }

    /// Holds when the event in the variant is a valid event of its type. Every
    /// value that a program can build is so.
    pub open spec fn wf(&self) -> bool {
        match self {
            TabletToolEvent::Axis(event) => event.wf(),
            TabletToolEvent::Proximity(event) => event.wf(),
            TabletToolEvent::Tip(event) => event.wf(),
            TabletToolEvent::Button(event) => event.wf(),
        }
    }

    /// The event that a record is: the variant that its type code names,
    /// wrapping the record unchanged.
    pub closed spec fn spec_from_raw(raw: RawToolEvent) -> TabletToolEvent
        recommends
            raw.well_formed(),
    {
        match raw.kind() {
            EventKind::Axis => TabletToolEvent::Axis(TabletToolAxisEvent { raw }),
            EventKind::Proximity => TabletToolEvent::Proximity(TabletToolProximityEvent { raw }),
            EventKind::Tip => TabletToolEvent::Tip(TabletToolTipEvent { raw }),
            EventKind::Button => TabletToolEvent::Button(TabletToolButtonEvent { raw }),
        }
    }

    /// Classifies a record: reads its type code and wraps the record in the
    /// event type of that kind. A record whose type code names none of the
    /// four kinds is no tablet tool event and must not be passed.
    pub fn from_raw(raw: RawToolEvent) -> (event: Self)
        requires
            raw.well_formed(),
        ensures
            event == Self::spec_from_raw(raw),
            event@ == raw,
            event.spec_kind() == raw.kind(),
            event.spec_kind().spec_code() == raw.event_type,
            event.wf(),
    {
        match EventKind::from_code(raw.event_type) {
            Some(EventKind::Axis) => TabletToolEvent::Axis(TabletToolAxisEvent::from_raw(raw)),
            Some(EventKind::Proximity) => TabletToolEvent::Proximity(
                TabletToolProximityEvent::from_raw(raw),
            ),
            Some(EventKind::Tip) => TabletToolEvent::Tip(TabletToolTipEvent::from_raw(raw)),
            Some(EventKind::Button) => TabletToolEvent::Button(
                TabletToolButtonEvent::from_raw(raw),
            ),
            None => unreached(),
        }
    }

    /// The kind of the event, which is the kind that the type code of its
    /// record names.
    #[verifier::when_used_as_spec(spec_kind)]
    pub fn kind(&self) -> (kind: EventKind)
        ensures
            kind == self.spec_kind(),
            kind == self@.kind(),
            kind.spec_code() == self@.event_type,
    {
        match self {
            TabletToolEvent::Axis(event) => {
                proof {
                    use_type_invariant(event);
                }
                EventKind::Axis
            },
            TabletToolEvent::Proximity(event) => {
                proof {
                    use_type_invariant(event);
                }
                EventKind::Proximity
            },
            TabletToolEvent::Tip(event) => {
                proof {
                    use_type_invariant(event);
                }
                EventKind::Tip
            },
            TabletToolEvent::Button(event) => {
                proof {
                    use_type_invariant(event);
                }
                EventKind::Button
            },
        }
    }

    /// Address of this event seen as an event of no particular kind, as the
    /// event in the variant gives it.
    pub fn as_raw_event(&self) -> (base: usize)
        ensures
            base == self@.base_event,
    {
        match self {
            TabletToolEvent::Axis(event) => event.as_raw_event(),
            TabletToolEvent::Proximity(event) => event.as_raw_event(),
            TabletToolEvent::Tip(event) => event.as_raw_event(),
            TabletToolEvent::Button(event) => event.as_raw_event(),
        }
    }
}

impl AsRaw for TabletToolEvent {
    fn as_raw(&self) -> (raw: &RawToolEvent) {
        match self {
            TabletToolEvent::Axis(event) => event.as_raw(),
            TabletToolEvent::Proximity(event) => event.as_raw(),
            TabletToolEvent::Tip(event) => event.as_raw(),
            TabletToolEvent::Button(event) => event.as_raw(),
        }
    }
}

impl Clone for TabletToolEvent {
    fn clone(&self) -> (copy: Self)
        ensures
            copy == *self,
    {
        match self {
            TabletToolEvent::Axis(event) => TabletToolEvent::Axis(event.clone()),
            TabletToolEvent::Proximity(event) => TabletToolEvent::Proximity(event.clone()),
            TabletToolEvent::Tip(event) => TabletToolEvent::Tip(event.clone()),
            TabletToolEvent::Button(event) => TabletToolEvent::Button(event.clone()),
        }
    }
}

impl PartialEq for TabletToolEvent {
    fn eq(&self, other: &Self) -> (equal: bool) {
        match (self, other) {
            (TabletToolEvent::Axis(a), TabletToolEvent::Axis(b)) => a.eq(b),
            (TabletToolEvent::Proximity(a), TabletToolEvent::Proximity(b)) => a.eq(b),
            (TabletToolEvent::Tip(a), TabletToolEvent::Tip(b)) => a.eq(b),
            (TabletToolEvent::Button(a), TabletToolEvent::Button(b)) => a.eq(b),
            _ => false,
        }
    }
}

impl Eq for TabletToolEvent {

}

impl vstd::std_specs::cmp::PartialEqSpecImpl for TabletToolEvent {
    open spec fn obeys_eq_spec() -> bool {
        true
    }

    /// Two events are equal exactly when they are of the same variant and the
    /// events in the variants are equal, that is when they stand for the same
    /// event of the device library.
    open spec fn eq_spec(&self, other: &Self) -> bool {
        self.spec_kind() == other.spec_kind() && self@.handle == other@.handle
    }
}

/// Classifying keeps the tag: the event made from a record is of the variant
/// that the record's type code names, for each of the four codes, and it holds
/// the record unchanged.
pub proof fn lemma_from_raw_keeps_tag(raw: RawToolEvent)
    requires
        raw.well_formed(),
    ensures
        TabletToolEvent::spec_from_raw(raw).wf(),
        TabletToolEvent::spec_from_raw(raw)@ == raw,
        TabletToolEvent::spec_from_raw(raw).spec_kind().spec_code() == raw.event_type,
        TabletToolEvent::spec_from_raw(raw) is Axis <==> raw.event_type == TABLET_TOOL_AXIS,
        TabletToolEvent::spec_from_raw(raw) is Proximity <==> raw.event_type
            == TABLET_TOOL_PROXIMITY,
        TabletToolEvent::spec_from_raw(raw) is Tip <==> raw.event_type == TABLET_TOOL_TIP,
        TabletToolEvent::spec_from_raw(raw) is Button <==> raw.event_type == TABLET_TOOL_BUTTON,
{
}

/// In every valid event the variant agrees with the type code of the record.
pub proof fn lemma_tag_agrees_with_type_code(event: TabletToolEvent)
    requires
        event.wf(),
    ensures
        event@.well_formed(),
        event.spec_kind() == event@.kind(),
        event.spec_kind().spec_code() == event@.event_type,
{
}

/// Widening an event and taking it out of the variant again gives the event
/// that went in: the same record, hence the same address and the same answer
/// from every accessor. This holds for an event of each of the four types, and
/// for an event that is already widened.
pub proof fn lemma_widening_gives_the_event_back(event: TabletToolEvent)
    requires
        event.wf(),
    ensures
        TabletToolEvent::spec_from_raw(event@) == event,
        match event {
            TabletToolEvent::Axis(inner) => TabletToolEvent::spec_from_raw(inner@)
                == TabletToolEvent::Axis(inner),
            TabletToolEvent::Proximity(inner) => TabletToolEvent::spec_from_raw(inner@)
                == TabletToolEvent::Proximity(inner),
            TabletToolEvent::Tip(inner) => TabletToolEvent::spec_from_raw(inner@)
                == TabletToolEvent::Tip(inner),
            TabletToolEvent::Button(inner) => TabletToolEvent::spec_from_raw(inner@)
                == TabletToolEvent::Button(inner),
        },
{
}

/// An event is what its record is: two events of one type that wrap equal
/// records are the same value.
pub proof fn lemma_record_determines_event(a: TabletToolEvent, b: TabletToolEvent)
    requires
        a.wf(),
        b.wf(),
        a@ == b@,
    ensures
        a == b,
{
}

/// Equality is identity of the event in the device library. Two events that
/// stand for the same event are equal; two that stand for different events
/// are unequal, even when everything else in their records coincides.
pub proof fn lemma_equality_is_identity(a: TabletToolEvent, b: TabletToolEvent)
    requires
        a.wf(),
        b.wf(),
    ensures
        a@.handle != b@.handle ==> !a.eq_spec(&b),
        (a@.handle == b@.handle && a@.event_type == b@.event_type) ==> a.eq_spec(&b),
        a.eq_spec(&b) <==> (a@.handle == b@.handle && a.spec_kind() == b.spec_kind()),
        a.eq_spec(&a),
        a.eq_spec(&b) == b.eq_spec(&a),
        match (a, b) {
            (TabletToolEvent::Axis(x), TabletToolEvent::Axis(y)) => a.eq_spec(&b) == x.eq_spec(&y),
            (TabletToolEvent::Proximity(x), TabletToolEvent::Proximity(y)) => a.eq_spec(&b)
                == x.eq_spec(&y),
            (TabletToolEvent::Tip(x), TabletToolEvent::Tip(y)) => a.eq_spec(&b) == x.eq_spec(&y),
            (TabletToolEvent::Button(x), TabletToolEvent::Button(y)) => a.eq_spec(&b)
                == x.eq_spec(&y),
            _ => !a.eq_spec(&b),
        },
{
}

} // verus!
