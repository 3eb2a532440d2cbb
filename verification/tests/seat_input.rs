use moonshine::compositor::focus::Rectangle;
use moonshine::compositor::input::{
    cursor_bounds, find_surface_at, location_limits, new_constraint, pen_tool_descriptor, process_input,
    process_pen_input,
    CompositorInputEvent, CursorBounds, InputState, PenAction, PenInput, PenState, PointerFacts,
    PointerRoute, SeatAction, SeatFacts, BTN_STYLUS, BTN_STYLUS2, BTN_STYLUS3,
};

const FACTS: SeatFacts =
    SeatFacts { keyboard: true, touch: true, tablet: true, pointer_locked: false, pen_focus: true };

const NO_PEN: PenState = PenState { active_tool: None, buttons: 0 };

fn fresh() -> InputState {
    InputState { last_pointer_activity: None, pen: NO_PEN }
}

fn actions(event: CompositorInputEvent, facts: SeatFacts) -> (Vec<SeatAction>, InputState) {
    let mut state = fresh();
    let actions = process_input(&event, &mut state, &facts, 99);
    (actions, state)
}

fn pen(event_kind: u8) -> PenInput {
    PenInput {
        event_kind,
        tool_kind: 1,
        buttons: 0,
        x_bits: 0,
        y_bits: 0,
        pressure_bits: 77,
        rotation: 0xFFFF,
        tilt: 0xFF,
    }
}

#[test]
fn keys_are_offset_and_do_not_show_the_cursor() {
    let (done, state) = actions(CompositorInputEvent::KeyDown { keycode: 30 }, FACTS);
    assert_eq!(done, vec![SeatAction::Key { code: 38, pressed: true }]);
    assert_eq!(state.last_pointer_activity, None);
    let (done, _) = actions(CompositorInputEvent::KeyUp { keycode: 30 }, FACTS);
    assert_eq!(done, vec![SeatAction::Key { code: 38, pressed: false }]);
    let bare = SeatFacts { keyboard: false, ..FACTS };
    assert!(actions(CompositorInputEvent::KeyDown { keycode: 30 }, bare).0.is_empty());
}

#[test]
fn the_pointer_moves_within_its_bounds() {
    let event = CompositorInputEvent::MouseMoveAbsolute { x: 5, y: 6, screen_width: 1920, screen_height: 0 };
    let (done, state) = actions(event, FACTS);
    assert_eq!(
        done,
        vec![
            SeatAction::SetCursor { x: 5, range_x: Some(1920), y: 6, range_y: None },
            SeatAction::ClampCursor,
            SeatAction::PointerMotion,
            SeatAction::PointerFrame,
        ]
    );
    assert_eq!(state.last_pointer_activity, Some(99));
    let event = CompositorInputEvent::MouseMoveRelative { dx: -3, dy: 4 };
    let locked = SeatFacts { pointer_locked: true, ..FACTS };
    assert_eq!(
        actions(event, locked).0,
        vec![
            SeatAction::RelativeMotion { dx: -3, dy: 4 },
            SeatAction::MoveCursor { dx: -3, dy: 4 },
            SeatAction::ClampCursor,
            SeatAction::PointerFrame,
        ]
    );
    assert!(actions(event, FACTS).0.contains(&SeatAction::PointerMotion));
}

#[test]
fn buttons_and_wheels_end_in_a_frame() {
    let button = |pressed| vec![SeatAction::Button { button: 0x110, pressed }, SeatAction::PointerFrame];
    assert_eq!(actions(CompositorInputEvent::MouseButtonDown { button: 0x110 }, FACTS).0, button(true));
    assert_eq!(actions(CompositorInputEvent::MouseButtonUp { button: 0x110 }, FACTS).0, button(false));
    assert_eq!(
        actions(CompositorInputEvent::ScrollVertical { amount: 120 }, FACTS).0[0],
        SeatAction::Axis { vertical: true, v120: -120 }
    );
    assert_eq!(
        actions(CompositorInputEvent::ScrollHorizontal { amount: 120 }, FACTS).0[0],
        SeatAction::Axis { vertical: false, v120: 120 }
    );
}

#[test]
fn fingers_need_a_touchscreen() {
    let down = CompositorInputEvent::TouchDown { slot: 1, x_bits: 2, y_bits: 3 };
    assert_eq!(
        actions(down, FACTS).0,
        vec![SeatAction::TouchDown { slot: 1, x_bits: 2, y_bits: 3 }, SeatAction::TouchFrame]
    );
    let moved = CompositorInputEvent::TouchMove { slot: 1, x_bits: 2, y_bits: 3 };
    assert_eq!(actions(moved, FACTS).0[0], SeatAction::TouchMotion { slot: 1, x_bits: 2, y_bits: 3 });
    let up = CompositorInputEvent::TouchUp { slot: 1 };
    assert_eq!(actions(up, FACTS).0, vec![SeatAction::TouchUp { slot: 1 }, SeatAction::TouchFrame]);
    assert_eq!(actions(CompositorInputEvent::TouchCancelAll, FACTS).0, vec![SeatAction::TouchCancel]);
    let bare = SeatFacts { touch: false, ..FACTS };
    for event in [down, moved, up, CompositorInputEvent::TouchCancelAll] {
        let (done, state) = actions(event, bare);
        assert!(done.is_empty());
        assert_eq!(state, fresh());
    }
}

#[test]
fn a_pen_comes_draws_and_goes() {
    let mut state = NO_PEN;
    let hover = process_pen_input(&mut state, &pen(0), true, true);
    assert_eq!(
        hover,
        vec![
            PenAction::SetCursor,
            PenAction::ProximityIn { tool: 1 },
            PenAction::Distance { bits: 77 },
            PenAction::Motion,
        ]
    );
    let tilted = PenInput { buttons: 5, rotation: 270, tilt: 120, ..pen(1) };
    assert_eq!(
        process_pen_input(&mut state, &tilted, true, true),
        vec![
            PenAction::SetCursor,
            PenAction::Pressure { bits: 77 },
            PenAction::Tilt { rotation: 270, degrees: 90 },
            PenAction::Motion,
            PenAction::Button { button: BTN_STYLUS, pressed: true },
            PenAction::Button { button: BTN_STYLUS3, pressed: true },
            PenAction::TipDown,
        ]
    );
    let buttons = PenInput { buttons: 6, ..pen(5) };
    assert_eq!(
        process_pen_input(&mut state, &buttons, true, true),
        vec![
            PenAction::Button { button: BTN_STYLUS, pressed: false },
            PenAction::Button { button: BTN_STYLUS2, pressed: true },
        ]
    );
    let up = PenInput { buttons: 6, ..pen(2) };
    assert_eq!(process_pen_input(&mut state, &up, true, true).last(), Some(&PenAction::TipUp));
    assert_eq!(
        process_pen_input(&mut state, &pen(6), true, true),
        vec![
            PenAction::TipUp,
            PenAction::Button { button: BTN_STYLUS2, pressed: false },
            PenAction::Button { button: BTN_STYLUS3, pressed: false },
            PenAction::ProximityOut,
        ]
    );
    assert_eq!(state, NO_PEN);
    assert!(process_pen_input(&mut state, &pen(7), true, true).is_empty());
}

#[test]
fn another_tool_replaces_the_pen() {
    let mut state = NO_PEN;
    process_pen_input(&mut state, &pen(0), true, true);
    let eraser = PenInput { tool_kind: 2, ..pen(3) };
    let done = process_pen_input(&mut state, &eraser, true, true);
    assert_eq!(done[..2], [PenAction::TipUp, PenAction::ProximityOut]);
    assert!(done.contains(&PenAction::ProximityIn { tool: 2 }));
    assert_eq!(done.last(), Some(&PenAction::TipDown));
    assert_eq!(state.active_tool, Some(2));
}

#[test]
fn a_pen_needs_a_tablet_and_a_surface() {
    let mut state = NO_PEN;
    assert!(process_pen_input(&mut state, &pen(0), false, true).is_empty());
    assert_eq!(process_pen_input(&mut state, &pen(0), true, false), vec![PenAction::SetCursor]);
    assert!(process_pen_input(&mut state, &PenInput { buttons: 1, ..pen(5) }, true, true).is_empty());
    assert_eq!(state, NO_PEN);
    let (done, input) = actions(CompositorInputEvent::Pen { pen: pen(0) }, FACTS);
    assert_eq!(done[0], SeatAction::Pen { action: PenAction::SetCursor });
    assert_eq!((input.last_pointer_activity, input.pen.active_tool), (Some(99), Some(1)));
}

#[test]
fn the_cursor_may_go_where_the_override_window_is() {
    let bounds = |min_x, min_y, max_x, max_y| CursorBounds { min_x, min_y, max_x, max_y };
    assert_eq!(cursor_bounds(800, 600, None), bounds(0, 0, 799, 599));
    let wide = Rectangle { x: -50, y: 100, w: 1000, h: 100 };
    assert_eq!(cursor_bounds(800, 600, Some(wide)), bounds(-50, 0, 949, 599));
    let far = Rectangle { x: i32::MAX, y: 0, w: i32::MAX, h: 1 };
    assert_eq!(cursor_bounds(800, 600, Some(far)).max_x, 2 * i32::MAX as i64 - 1);
    assert_eq!(location_limits(800, 600), (799, 599));
    assert_eq!(location_limits(0, -5), (0, 0));
}

#[test]
fn pointer_events_find_their_surface() {
    let none = PointerFacts {
        override_window: false,
        override_placed: false,
        override_hit: false,
        bypass: false,
        focused_x11: false,
        focused_placed: false,
        focused_hit: false,
        focused_surface: false,
        bypass_surface: false,
        under: false,
    };
    let route = |f: PointerFacts| find_surface_at(&f);
    assert_eq!(route(none), None);
    assert_eq!(route(PointerFacts { under: true, ..none }), Some(PointerRoute::UnderCursor));
    let menu = PointerFacts { override_window: true, under: true, ..none };
    assert_eq!(route(menu), None);
    let placed = PointerFacts { override_placed: true, ..menu };
    assert_eq!(route(placed), Some(PointerRoute::UnderCursor));
    let hit = PointerFacts { override_hit: true, ..placed };
    assert_eq!(route(hit), Some(PointerRoute::OverrideWindow));
    assert_eq!(
        route(PointerFacts { bypass: true, bypass_surface: true, ..hit }),
        Some(PointerRoute::Bypass)
    );
    let focused = PointerFacts { bypass: true, focused_x11: true, bypass_surface: true, ..hit };
    assert_eq!(route(focused), None);
    let focused = PointerFacts { focused_placed: true, ..focused };
    assert_eq!(route(focused), None);
    let surface = PointerFacts { focused_surface: true, ..focused };
    assert_eq!(route(surface), Some(PointerRoute::FocusedSurface));
    assert_eq!(route(PointerFacts { focused_hit: true, ..surface }), Some(PointerRoute::FocusedHit));
}

#[test]
fn tools_are_told_apart_by_their_kind() {
    assert!(pen_tool_descriptor(2).eraser);
    assert!(!pen_tool_descriptor(1).eraser);
    assert!(!pen_tool_descriptor(0).eraser);
    assert_eq!(pen_tool_descriptor(255).hardware_serial, 255);
}

#[test]
fn a_constraint_needs_the_pointer() {
    assert!(new_constraint(Some(4), 4));
    assert!(!new_constraint(Some(5), 4));
    assert!(!new_constraint(None, 4));
}
