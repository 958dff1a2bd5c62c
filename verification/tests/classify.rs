use tablet_tool::raw::{
    TABLET_TOOL_AXIS, TABLET_TOOL_BUTTON, TABLET_TOOL_PROXIMITY, TABLET_TOOL_TIP,
};
use tablet_tool::{
    AsRaw, EventKind, RawToolEvent, TabletToolAxisEvent, TabletToolButtonEvent, TabletToolEvent,
    TabletToolEventTrait, TabletToolProximityEvent, TabletToolTipEvent,
};

fn record(event_type: u32) -> RawToolEvent {
    RawToolEvent {
        handle: 0x7f00_1000,
        base_event: 0x7f00_1010,
        tool: 0x7f00_2000,
        event_type,
        ..Default::default()
    }
}

#[test]
fn type_codes_have_the_values_of_the_device_library() {
    assert_eq!(TABLET_TOOL_AXIS, 600);
    assert_eq!(TABLET_TOOL_PROXIMITY, 601);
    assert_eq!(TABLET_TOOL_TIP, 602);
    assert_eq!(TABLET_TOOL_BUTTON, 603);
}

#[test]
fn the_four_codes_name_the_four_kinds() {
    assert_eq!(EventKind::from_code(600), Some(EventKind::Axis));
    assert_eq!(EventKind::from_code(601), Some(EventKind::Proximity));
    assert_eq!(EventKind::from_code(602), Some(EventKind::Tip));
    assert_eq!(EventKind::from_code(603), Some(EventKind::Button));
}

#[test]
fn other_codes_name_no_kind() {
    for code in [0u32, 1, 300, 400, 599, 604, 700, 900, u32::MAX] {
        assert_eq!(EventKind::from_code(code), None);
    }
}

#[test]
fn kind_and_code_undo_each_other() {
    for kind in [EventKind::Axis, EventKind::Proximity, EventKind::Tip, EventKind::Button] {
        assert_eq!(EventKind::from_code(kind.code()), Some(kind));
    }
    for code in 600u32..=603 {
        assert_eq!(EventKind::from_code(code).map(|k| k.code()), Some(code));
    }
}

#[test]
fn from_raw_gives_the_variant_of_the_type_code() {
    assert!(matches!(TabletToolEvent::from_raw(record(600)), TabletToolEvent::Axis(_)));
    assert!(matches!(TabletToolEvent::from_raw(record(601)), TabletToolEvent::Proximity(_)));
    assert!(matches!(TabletToolEvent::from_raw(record(602)), TabletToolEvent::Tip(_)));
    assert!(matches!(TabletToolEvent::from_raw(record(603)), TabletToolEvent::Button(_)));
}

#[test]
fn tag_in_is_tag_out() {
    for code in 600u32..=603 {
        let event = TabletToolEvent::from_raw(record(code));
        assert_eq!(event.kind().code(), code);
        assert_eq!(event.as_raw().event_type, code);
        assert_eq!(*event.as_raw(), record(code));
    }
}

#[test]
fn a_plain_record_of_each_kind_is_well_formed() {
    for code in 600u32..=603 {
        assert!(record(code).is_well_formed());
    }
}

#[test]
fn a_record_with_an_unknown_type_code_is_not_well_formed() {
    for code in [0u32, 599, 604, 703] {
        assert!(!record(code).is_well_formed());
    }
}

#[test]
fn a_record_with_a_null_address_is_not_well_formed() {
    for code in 600u32..=603 {
        assert!(!RawToolEvent { handle: 0, ..record(code) }.is_well_formed());
    }
    assert!(RawToolEvent { handle: 1, ..record(600) }.is_well_formed());
    assert!(RawToolEvent { handle: usize::MAX, ..record(600) }.is_well_formed());
    assert!(!RawToolEvent::default().is_well_formed());
}

#[test]
fn the_state_of_the_kind_must_be_one_of_its_two_values() {
    assert!(RawToolEvent { proximity_state: 1, ..record(601) }.is_well_formed());
    assert!(!RawToolEvent { proximity_state: 2, ..record(601) }.is_well_formed());
    assert!(RawToolEvent { tip_state: 1, ..record(602) }.is_well_formed());
    assert!(!RawToolEvent { tip_state: 2, ..record(602) }.is_well_formed());
    assert!(RawToolEvent { button_state: 1, ..record(603) }.is_well_formed());
    assert!(!RawToolEvent { button_state: 2, ..record(603) }.is_well_formed());
}

#[test]
fn a_state_of_another_kind_is_not_looked_at() {
    assert!(RawToolEvent { proximity_state: 9, tip_state: 9, button_state: 9, ..record(600) }
        .is_well_formed());
    assert!(RawToolEvent { tip_state: 9, button_state: 9, ..record(601) }.is_well_formed());
    assert!(RawToolEvent { proximity_state: 9, button_state: 9, ..record(602) }.is_well_formed());
    assert!(RawToolEvent { proximity_state: 9, tip_state: 9, ..record(603) }.is_well_formed());
}

#[test]
fn widening_an_axis_event_gives_it_back() {
    let event = TabletToolAxisEvent::from_raw(RawToolEvent { time: 17, ..record(600) });
    let copy = event.clone();
    match event.into_tablet_tool_event() {
        TabletToolEvent::Axis(inner) => {
            assert_eq!(inner, copy);
            assert_eq!(inner.as_raw(), copy.as_raw());
            assert_eq!(inner.time(), 17);
        }
        other => panic!("an axis event widened to {:?}", other),
    }
}

#[test]
fn widening_a_proximity_event_gives_it_back() {
    let raw = RawToolEvent { proximity_state: 1, ..record(601) };
    let event = TabletToolProximityEvent::from_raw(raw);
    match event.into_tablet_tool_event() {
        TabletToolEvent::Proximity(inner) => {
            assert_eq!(*inner.as_raw(), raw);
            assert_eq!(inner.proximity_state(), tablet_tool::ProximityState::In);
        }
        other => panic!("a proximity event widened to {:?}", other),
    }
}

#[test]
fn widening_a_tip_event_gives_it_back() {
    let raw = RawToolEvent { tip_state: 1, ..record(602) };
    let event = TabletToolTipEvent::from_raw(raw);
    match event.into_tablet_tool_event() {
        TabletToolEvent::Tip(inner) => {
            assert_eq!(*inner.as_raw(), raw);
            assert_eq!(inner.tip_state(), tablet_tool::TipState::Down);
        }
        other => panic!("a tip event widened to {:?}", other),
    }
}

#[test]
fn widening_a_button_event_gives_it_back() {
    let raw = RawToolEvent { button: 331, seat_button_count: 2, ..record(603) };
    let event = TabletToolButtonEvent::from_raw(raw);
    match event.into_tablet_tool_event() {
        TabletToolEvent::Button(inner) => {
            assert_eq!(*inner.as_raw(), raw);
            assert_eq!(inner.button(), 331);
            assert_eq!(inner.seat_button_count(), 2);
        }
        other => panic!("a button event widened to {:?}", other),
    }
}

#[test]
fn widening_a_widened_event_changes_nothing() {
    let event = TabletToolEvent::from_raw(RawToolEvent { tip_state: 0, ..record(602) });
    let copy = event.clone();
    let again = event.into_tablet_tool_event();
    assert_eq!(again, copy);
    assert_eq!(again.as_raw(), copy.as_raw());
    assert_eq!(again.kind(), EventKind::Tip);
}

#[test]
fn the_base_event_is_that_of_the_variant() {
    for code in 600u32..=603 {
        let raw = RawToolEvent { base_event: 0x5000 + code as usize, ..record(code) };
        assert_eq!(TabletToolEvent::from_raw(raw).as_raw_event(), 0x5000 + code as usize);
    }
    assert_eq!(TabletToolAxisEvent::from_raw(record(600)).as_raw_event(), 0x7f00_1010);
    assert_eq!(TabletToolProximityEvent::from_raw(record(601)).as_raw_event(), 0x7f00_1010);
    assert_eq!(TabletToolTipEvent::from_raw(record(602)).as_raw_event(), 0x7f00_1010);
    assert_eq!(TabletToolButtonEvent::from_raw(record(603)).as_raw_event(), 0x7f00_1010);
}

#[test]
fn as_raw_lends_the_record_unchanged() {
    let raw = RawToolEvent { time: 5, time_usec: 5_000, x: 42, ..record(600) };
    let event = TabletToolAxisEvent::from_raw(raw);
    assert_eq!(*event.as_raw(), raw);
    assert_eq!(*event.as_raw(), raw);
}
