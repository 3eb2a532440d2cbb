use moonshine::compositor::input::CompositorInputEvent;
use moonshine::control::event::{
    handle_input, InputEvent, InputEventType, InputRoute, ReadInput,
};
use moonshine::control::gamepad::{Announced, GamepadSlot, Gamepads, SlotOutput, Timed, SLOTS};
use moonshine::control::remap::{
    HoldState, HoldToHome, HoldTransition, HomeButtonConfig, BACK_FLAG, SPECIAL_FLAG, TAP_NANOS,
};

const MS: u128 = 1_000_000;
const A_FLAG: u32 = 0x1000;

fn config() -> HomeButtonConfig {
    HomeButtonConfig {
        hold_ms: 500,
        suppress_home: false,
        rumble: true,
        rumble_strength: 32_767,
        rumble_duration_ms: 200,
    }
}

#[test]
fn events_are_read_by_their_type() {
    let event = InputEvent::from_bytes(&[0x01, 0, 0, 0x55, 9, 8]).unwrap();
    assert_eq!(event.event_type, InputEventType::MouseScrollHorizontal);
    assert_eq!(event.payload, vec![9, 8]);
    assert!(InputEvent::from_bytes(&[0x0d, 0, 0, 0]).unwrap().payload.is_empty());
    assert!(InputEvent::from_bytes(&[0x06, 0, 0, 0]).is_err());
    assert!(InputEvent::from_bytes(&[0x03, 0, 0]).is_err());
    assert!(InputEvent::from_bytes(&[]).is_err());
}

#[test]
fn event_types_have_their_numbers() {
    let types = [
        (0x3, InputEventType::KeyDown, false),
        (0x4, InputEventType::KeyUp, false),
        (0x5, InputEventType::MouseMoveAbsolute, false),
        (0x7, InputEventType::MouseMoveRelative, false),
        (0x8, InputEventType::MouseButtonDown, false),
        (0x9, InputEventType::MouseButtonUp, false),
        (0xA, InputEventType::MouseScrollVertical, false),
        (0x5500_0001, InputEventType::MouseScrollHorizontal, false),
        (0x5500_0004, InputEventType::GamepadInfo, true),
        (0x5500_0005, InputEventType::GamepadTouch, true),
        (0x5500_0006, InputEventType::GamepadMotion, true),
        (0x5500_0007, InputEventType::GamepadBattery, true),
        (0xC, InputEventType::GamepadUpdate, true),
        (0xD, InputEventType::GamepadEnableHaptics, true),
    ];
    for (number, kind, gamepad) in types {
        assert_eq!(InputEventType::from_repr(number), Some(kind));
        assert_eq!(kind.is_gamepad(), gamepad);
    }
    assert_eq!(InputEventType::from_repr(0x6), None);
}

#[test]
fn input_goes_to_the_compositor_or_the_gamepads() {
    let route = |event| handle_input(&event);
    let to = InputRoute::Compositor;
    assert_eq!(route(ReadInput::KeyDown { keycode: None }), InputRoute::Dropped);
    assert_eq!(route(ReadInput::KeyUp { keycode: None }), InputRoute::Dropped);
    assert_eq!(
        route(ReadInput::KeyDown { keycode: Some(30) }),
        to(CompositorInputEvent::KeyDown { keycode: 30 })
    );
    assert_eq!(
        route(ReadInput::KeyUp { keycode: Some(30) }),
        to(CompositorInputEvent::KeyUp { keycode: 30 })
    );
    assert_eq!(
        route(ReadInput::MouseMoveAbsolute { x: 1, y: 2, screen_width: 3, screen_height: 4 }),
        to(CompositorInputEvent::MouseMoveAbsolute { x: 1, y: 2, screen_width: 3, screen_height: 4 })
    );
    assert_eq!(
        route(ReadInput::MouseMoveRelative { x: -1, y: 2 }),
        to(CompositorInputEvent::MouseMoveRelative { dx: -1, dy: 2 })
    );
    assert_eq!(
        route(ReadInput::MouseButtonDown { button: 0x110 }),
        to(CompositorInputEvent::MouseButtonDown { button: 0x110 })
    );
    assert_eq!(
        route(ReadInput::MouseButtonUp { button: 0x110 }),
        to(CompositorInputEvent::MouseButtonUp { button: 0x110 })
    );
    assert_eq!(
        route(ReadInput::MouseScrollVertical { amount: -120 }),
        to(CompositorInputEvent::ScrollVertical { amount: -120 })
    );
    assert_eq!(
        route(ReadInput::MouseScrollHorizontal { amount: 120 }),
        to(CompositorInputEvent::ScrollHorizontal { amount: 120 })
    );
    assert_eq!(route(ReadInput::Gamepad), InputRoute::Gamepads);
}

#[test]
fn held_back_becomes_home() {
    let mut hold = HoldToHome::new(&config());
    assert_eq!(hold.apply(BACK_FLAG | A_FLAG, 0), (A_FLAG, HoldTransition::Unchanged));
    assert_eq!(hold.next_deadline(), Some(500 * MS));
    assert_eq!(hold.apply(BACK_FLAG, 499 * MS), (0, HoldTransition::Unchanged));
    assert_eq!(hold.apply(BACK_FLAG, 500 * MS), (SPECIAL_FLAG, HoldTransition::HomeActivated));
    assert_eq!(hold.next_deadline(), None);
    assert_eq!(
        hold.apply(BACK_FLAG | A_FLAG, 600 * MS),
        (SPECIAL_FLAG | A_FLAG, HoldTransition::Unchanged)
    );
    assert_eq!(hold.apply(0, 700 * MS), (0, HoldTransition::Unchanged));
    assert_eq!(hold.state, HoldState::Inactive);
}

#[test]
fn time_alone_activates_home() {
    let mut hold = HoldToHome::new(&config());
    hold.apply(BACK_FLAG | A_FLAG, 0);
    assert_eq!(hold.advance(499 * MS), (A_FLAG, HoldTransition::Unchanged));
    assert_eq!(hold.advance(500 * MS), (SPECIAL_FLAG | A_FLAG, HoldTransition::HomeActivated));
    assert_eq!(hold.advance(600 * MS), (0x1400, HoldTransition::Unchanged));
    assert_eq!(hold.apply(A_FLAG, 700 * MS), (A_FLAG, HoldTransition::Unchanged));
    assert_eq!(hold.advance(800 * MS), (A_FLAG, HoldTransition::Unchanged));
}

#[test]
fn a_short_tap_stays_back() {
    let mut hold = HoldToHome::new(&config());
    hold.apply(BACK_FLAG, 0);
    assert_eq!(hold.apply(A_FLAG, 10 * MS), (BACK_FLAG | A_FLAG, HoldTransition::Unchanged));
    assert_eq!(hold.next_deadline(), Some(10 * MS + TAP_NANOS));
    assert_eq!(hold.apply(BACK_FLAG, 20 * MS), (BACK_FLAG, HoldTransition::Unchanged));
    assert_eq!(hold.advance(109 * MS), (BACK_FLAG, HoldTransition::Unchanged));
    assert_eq!(hold.advance(110 * MS), (0, HoldTransition::Unchanged));
    assert_eq!(hold.state, HoldState::Inactive);
}

#[test]
fn home_can_be_suppressed_and_the_remap_turned_off() {
    let mut hold = HoldToHome::new(&HomeButtonConfig { suppress_home: true, ..config() });
    assert_eq!(hold.apply(SPECIAL_FLAG | A_FLAG, 0), (A_FLAG, HoldTransition::Unchanged));
    let mut hold = HoldToHome::new(&config());
    assert_eq!(hold.apply(SPECIAL_FLAG, 0), (SPECIAL_FLAG, HoldTransition::Unchanged));
    let mut off = HoldToHome::new(&HomeButtonConfig { hold_ms: 0, suppress_home: true, ..config() });
    let all = BACK_FLAG | SPECIAL_FLAG;
    assert_eq!(off.apply(all, 0), (all, HoldTransition::Unchanged));
    assert_eq!(off.advance(0), (0, HoldTransition::Unchanged));
    assert_eq!(off.next_deadline(), None);
}

#[test]
fn home_rumbles_for_its_time_and_stays_held() {
    let mut slot = GamepadSlot::new(&config());
    slot.apply_buttons(BACK_FLAG, 0);
    assert_eq!(
        slot.advance(500 * MS),
        SlotOutput { pressed: Some(SPECIAL_FLAG), rumble_off: false, rumble_on: Some(32_767) }
    );
    assert_eq!(slot.next_deadline(), Some(700 * MS));
    assert_eq!(slot.advance(699 * MS), SlotOutput { pressed: None, rumble_off: false, rumble_on: None });
    assert_eq!(slot.advance(700 * MS), SlotOutput { pressed: None, rumble_off: true, rumble_on: None });
    assert_eq!(slot.next_deadline(), None);
    let released = slot.apply_buttons(0, 800 * MS);
    assert_eq!(released, SlotOutput { pressed: Some(0), rumble_off: false, rumble_on: None });
}

#[test]
fn a_rumble_needs_strength_and_time() {
    for setup in [
        HomeButtonConfig { rumble: false, ..config() },
        HomeButtonConfig { rumble_duration_ms: 0, ..config() },
    ] {
        let mut slot = GamepadSlot::new(&setup);
        slot.apply_buttons(BACK_FLAG, 0);
        assert_eq!(slot.apply_buttons(BACK_FLAG, 500 * MS).rumble_on, None);
        assert_eq!(slot.next_deadline(), None);
    }
    let mut slot = GamepadSlot::new(&HomeButtonConfig { rumble_duration_ms: 5_000, ..config() });
    slot.apply_buttons(BACK_FLAG, 0);
    assert_eq!(slot.apply_buttons(BACK_FLAG, 500 * MS).rumble_on, Some(32_767));
    slot.apply_buttons(0, 600 * MS);
    slot.apply_buttons(BACK_FLAG, 700 * MS);
    let again = slot.apply_buttons(BACK_FLAG, 1_200 * MS);
    assert_eq!(again, SlotOutput { pressed: Some(SPECIAL_FLAG), rumble_off: false, rumble_on: None });
}

#[test]
fn gamepads_have_sixteen_slots() {
    let mut pads = Gamepads::new(config());
    assert_eq!(pads.slots.len(), SLOTS);
    assert_eq!(pads.announce(15), Announced::Create);
    assert_eq!(pads.announce(16), Announced::NoSlot);
    pads.connect(15);
    assert_eq!(pads.announce(15), Announced::Known);
    assert!(pads.is_connected(15) && !pads.is_connected(0) && !pads.is_connected(16));
    assert!(pads.update(16, 0xffff, 0, 0).is_none());
    assert!(pads.is_connected(15));
}

#[test]
fn updates_press_buttons_and_drop_inactive_gamepads() {
    let mut pads = Gamepads::new(config());
    pads.connect(0);
    pads.connect(2);
    pads.connect(3);
    assert!(pads.update_needs_gamepad(1, 0b10) && !pads.update_needs_gamepad(1, 0b01));
    assert!(!pads.update_needs_gamepad(0, 0b01) && !pads.update_needs_gamepad(16, 0xffff));
    let outcome = pads.update(0, 0b0101, A_FLAG, 0).unwrap();
    assert_eq!(outcome.output.unwrap().pressed, Some(A_FLAG));
    assert_eq!(outcome.disconnected, vec![3]);
    assert!(pads.is_connected(0) && pads.is_connected(2) && !pads.is_connected(3));
    let outcome = pads.update(5, 0, A_FLAG, 0).unwrap();
    assert!(outcome.output.is_none());
    assert_eq!(outcome.disconnected, vec![0, 2]);
}

#[test]
fn timers_reach_the_gamepads_that_are_due() {
    let mut pads = Gamepads::new(config());
    pads.connect(0);
    pads.connect(1);
    pads.connect(2);
    assert_eq!(pads.next_deadline(), None);
    pads.update(2, 0b111, BACK_FLAG, 10 * MS);
    pads.update(1, 0b111, BACK_FLAG, 0);
    assert_eq!(pads.next_deadline(), Some(500 * MS));
    assert!(pads.advance_due(499 * MS).is_empty());
    let output = SlotOutput { pressed: Some(SPECIAL_FLAG), rumble_off: false, rumble_on: Some(32_767) };
    assert_eq!(pads.advance_due(500 * MS), vec![Timed { index: 1, output }]);
    assert_eq!(pads.next_deadline(), Some(510 * MS));
    let ended = SlotOutput { pressed: None, rumble_off: true, rumble_on: None };
    assert_eq!(
        pads.advance_due(700 * MS),
        vec![Timed { index: 1, output: ended }, Timed { index: 2, output }]
    );
}
