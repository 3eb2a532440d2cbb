//! Input events of the stream, turned into what is done on the seat.
//!
//! Coordinates that need fractions stay as the client sent them: a fraction
//! of 32 bits is carried as its bit pattern, and whoever carries an action
//! out scales it.
use vstd::prelude::*;

use crate::compositor::focus::Rectangle;

verus! {

/// An input event from the control stream.
#[derive(Clone, Copy, Debug, PartialEq, Eq, Structural)]
pub enum CompositorInputEvent {
    /// A key was pressed (evdev code).
    KeyDown { keycode: u32 },
    /// A key was released (evdev code).
    KeyUp { keycode: u32 },
    /// The pointer moved to a place on the client's screen.
    MouseMoveAbsolute { x: i16, y: i16, screen_width: i16, screen_height: i16 },
    /// The pointer moved by so much.
    MouseMoveRelative { dx: i16, dy: i16 },
    /// A mouse button was pressed.
    MouseButtonDown { button: u32 },
    /// A mouse button was released.
    MouseButtonUp { button: u32 },
    /// Vertical scroll, positive upwards.
    ScrollVertical { amount: i16 },
    /// Horizontal scroll.
    ScrollHorizontal { amount: i16 },
    /// A finger was put down; the place is a fraction of the screen.
    TouchDown { slot: u32, x_bits: u32, y_bits: u32 },
    /// A finger moved.
    TouchMove { slot: u32, x_bits: u32, y_bits: u32 },
    /// A finger was lifted.
    TouchUp { slot: u32 },
    /// All fingers are to be forgotten.
    TouchCancelAll,
    /// A pen event.
    Pen { pen: PenInput },
}

/// A pen event; place and pressure or distance are fractions.
#[derive(Clone, Copy, Debug, PartialEq, Eq, Structural)]
pub struct PenInput {
    pub event_kind: u8,
    pub tool_kind: u8,
    pub buttons: u8,
    pub x_bits: u32,
    pub y_bits: u32,
    pub pressure_bits: u32,
    pub rotation: u16,
    pub tilt: u8,
}

/// Something to be done on the seat.
#[derive(Clone, Copy, Debug, PartialEq, Eq, Structural)]
pub enum SeatAction {
    /// Press or release a key (XKB code).
    Key { code: u32, pressed: bool },
    /// Set the cursor, `x` out of `range_x` of the output's width, or at `x`
    /// itself without a range; likewise for `y`.
    SetCursor { x: i16, range_x: Option<i16>, y: i16, range_y: Option<i16> },
    /// Move the cursor by so much.
    MoveCursor { dx: i16, dy: i16 },
    /// Send the motion itself to what is under the pointer.
    RelativeMotion { dx: i16, dy: i16 },
    /// Keep the cursor within its bounds.
    ClampCursor,
    /// Send the cursor's place to what is under it.
    PointerMotion,
    /// Press or release a mouse button.
    Button { button: u32, pressed: bool },
    /// Scroll by `v120` hundred-and-twentieths of a step.
    Axis { vertical: bool, v120: i32 },
    /// The pointer events so far belong together.
    PointerFrame,
    /// Put a finger down on what is under it.
    TouchDown { slot: u32, x_bits: u32, y_bits: u32 },
    /// Move a finger.
    TouchMotion { slot: u32, x_bits: u32, y_bits: u32 },
    /// Lift a finger.
    TouchUp { slot: u32 },
    /// The touch events so far belong together.
    TouchFrame,
    /// Forget all fingers.
    TouchCancel,
    /// Do this with the pen.
    Pen { action: PenAction },
}

/// Something to be done with the pen.
#[derive(Clone, Copy, Debug, PartialEq, Eq, Structural)]
pub enum PenAction {
    /// Set the cursor to where the pen is.
    SetCursor,
    /// The pen comes near a surface.
    ProximityIn { tool: u8 },
    /// The pen goes away.
    ProximityOut,
    /// The tip touches.
    TipDown,
    /// The tip is lifted.
    TipUp,
    /// A button of the pen.
    Button { button: u32, pressed: bool },
    /// How far the hovering pen is.
    Distance { bits: u32 },
    /// How hard the pen is pressed.
    Pressure { bits: u32 },
    /// How the pen is held: direction and inclination in degrees.
    Tilt { rotation: u16, degrees: u8 },
    /// Send the pen's place to what is under it.
    Motion,
}

pub const POINTER_EVENT_HOVER: u8 = 0;

pub const POINTER_EVENT_DOWN: u8 = 1;

pub const POINTER_EVENT_UP: u8 = 2;

pub const POINTER_EVENT_MOVE: u8 = 3;

pub const POINTER_EVENT_CANCEL: u8 = 4;

pub const POINTER_EVENT_BUTTON_ONLY: u8 = 5;

pub const POINTER_EVENT_HOVER_LEAVE: u8 = 6;

pub const POINTER_EVENT_CANCEL_ALL: u8 = 7;

/// The tool that is an eraser.
pub const PEN_TOOL_ERASER: u8 = 2;

/// How a tool is made known to applications.
#[derive(Clone, Copy, Debug, PartialEq, Eq, Structural)]
pub struct PenTool {
    /// It is an eraser; else a pen.
    pub eraser: bool,
    /// The number by which it is told from others.
    pub hardware_serial: u64,
}

/// How a tool is made known: every kind other than the eraser is a pen, and
/// each has a number of its own.
pub fn pen_tool_descriptor(tool_kind: u8) -> (r: PenTool)
    ensures
        r == (PenTool { eraser: tool_kind == PEN_TOOL_ERASER, hardware_serial: tool_kind as u64 }),
{
    PenTool { eraser: tool_kind == PEN_TOOL_ERASER, hardware_serial: tool_kind as u64 }
}

/// Whether a new constraint on the pointer is activated at once: only where
/// its surface already has the pointer.
pub fn new_constraint(pointer_focus: Option<u64>, surface: u64) -> (r: bool)
    ensures
        r == (pointer_focus == Some(surface)),
{
    match pointer_focus {
        Some(focus) => focus == surface,
        None => false,
    }
}

pub const ROTATION_UNKNOWN: u16 = 0xFFFF;

pub const TILT_UNKNOWN: u8 = 0xFF;

pub const BTN_STYLUS: u32 = 0x14B;

pub const BTN_STYLUS2: u32 = 0x14C;

pub const BTN_STYLUS3: u32 = 0x149;

// ---------------------------------------------------------------------------
// The pen
// ---------------------------------------------------------------------------

/// The pen that is near a surface, and its buttons.
#[derive(Clone, Copy, Debug, PartialEq, Eq, Structural)]
pub struct PenState {
    /// The tool that is near, if any.
    pub active_tool: Option<u8>,
    /// The buttons that are pressed, one bit each.
    pub buttons: u8,
}

/// An action that is taken only if `c`.
pub open spec fn pen_if(c: bool, a: PenAction) -> Seq<PenAction> {
    if c {
        seq![a]
    } else {
        Seq::empty()
    }
}

/// Presses and releases that take the button under `mask` from one state to
/// the other.
pub open spec fn button_change(was: u8, is: u8, mask: u8, button: u32) -> Seq<PenAction> {
    pen_if(was & mask != is & mask, PenAction::Button { button, pressed: is & mask != 0 })
}

/// Presses and releases that take the pen's buttons from one state to the
/// other.
pub open spec fn button_changes(was: u8, is: u8) -> Seq<PenAction> {
    button_change(was, is, 1, BTN_STYLUS) + button_change(was, is, 2, BTN_STYLUS2) + button_change(
        was,
        is,
        4,
        BTN_STYLUS3,
    )
}

/// What lets go of the pen: tip up, buttons released, out of proximity.
pub open spec fn release_actions(pen: PenState) -> Seq<PenAction> {
    if pen.active_tool is Some {
        seq![PenAction::TipUp] + button_changes(pen.buttons, 0) + seq![PenAction::ProximityOut]
    } else {
        Seq::empty()
    }
}

/// No pen near.
pub open spec fn no_pen() -> PenState {
    PenState { active_tool: None, buttons: 0 }
}

/// An event that ends the pen's presence.
pub open spec fn ends_pen(kind: u8) -> bool {
    kind == POINTER_EVENT_CANCEL || kind == POINTER_EVENT_HOVER_LEAVE || kind == POINTER_EVENT_CANCEL_ALL
}

/// What is done for a pen at a place, once the tool is near a surface.
pub open spec fn pen_strokes(pen: PenState, e: PenInput) -> Seq<PenAction> {
    seq![
        if e.event_kind == POINTER_EVENT_HOVER {
            PenAction::Distance { bits: e.pressure_bits }
        } else {
            PenAction::Pressure { bits: e.pressure_bits }
        },
    ] + pen_if(
        e.rotation != ROTATION_UNKNOWN && e.tilt != TILT_UNKNOWN,
        PenAction::Tilt { rotation: e.rotation, degrees: if e.tilt < 90 { e.tilt } else { 90 } },
    ) + seq![PenAction::Motion] + button_changes(pen.buttons, e.buttons) + pen_if(
        e.event_kind == POINTER_EVENT_DOWN || e.event_kind == POINTER_EVENT_MOVE,
        PenAction::TipDown,
    ) + pen_if(e.event_kind == POINTER_EVENT_UP, PenAction::TipUp)
}

/// The pen's state after an event; `tablet` says that there is a tablet,
/// `focus` that there is a surface under the pen.
pub open spec fn pen_after(pen: PenState, e: PenInput, tablet: bool, focus: bool) -> PenState {
    if ends_pen(e.event_kind) {
        no_pen()
    } else if e.event_kind == POINTER_EVENT_BUTTON_ONLY {
        if pen.active_tool is Some {
            PenState { buttons: e.buttons, ..pen }
        } else {
            pen
        }
    } else {
        let pen = pen_switched(pen, e.tool_kind);
        if !tablet || (pen.active_tool is None && !focus) {
            pen
        } else {
            PenState { active_tool: Some(e.tool_kind), buttons: e.buttons }
        }
    }
}

/// The pen's state after a tool other than the active one showed up.
pub open spec fn pen_switched(pen: PenState, tool: u8) -> PenState {
    if pen.active_tool is Some && pen.active_tool != Some(tool) {
        no_pen()
    } else {
        pen
    }
}

/// What a pen event calls for.
pub open spec fn pen_actions(pen: PenState, e: PenInput, tablet: bool, focus: bool) -> Seq<PenAction> {
    if ends_pen(e.event_kind) {
        release_actions(pen)
    } else if e.event_kind == POINTER_EVENT_BUTTON_ONLY {
        if pen.active_tool is Some {
            button_changes(pen.buttons, e.buttons)
        } else {
            Seq::empty()
        }
    } else {
        let switched = pen_switched(pen, e.tool_kind);
        let release = if switched == pen {
            Seq::empty()
        } else {
            release_actions(pen)
        };
        if !tablet {
            release
        } else if switched.active_tool is None && !focus {
            release + seq![PenAction::SetCursor]
        } else {
            release + seq![PenAction::SetCursor] + pen_if(
                switched.active_tool is None,
                PenAction::ProximityIn { tool: e.tool_kind },
            ) + pen_strokes(switched, e)
        }
    }
}

/// Adds an action if `c`.
fn push_pen_if(actions: &mut Vec<PenAction>, c: bool, a: PenAction)
    ensures
        final(actions)@ == old(actions)@ + pen_if(c, a),
{
    if c {
        actions.push(a);
    }
    proof {
        assert(actions@ =~= old(actions)@ + pen_if(c, a));
    }
}

/// Adds what takes the pen's buttons from one state to the other; see
/// [`button_changes`].
pub fn sync_pen_buttons(actions: &mut Vec<PenAction>, was: u8, is: u8)
    ensures
        final(actions)@ == old(actions)@ + button_changes(was, is),
{
    push_pen_if(
        actions,
        was & 1 != is & 1,
        PenAction::Button { button: BTN_STYLUS, pressed: is & 1 != 0 },
    );
    push_pen_if(
        actions,
        was & 2 != is & 2,
        PenAction::Button { button: BTN_STYLUS2, pressed: is & 2 != 0 },
    );
    push_pen_if(
        actions,
        was & 4 != is & 4,
        PenAction::Button { button: BTN_STYLUS3, pressed: is & 4 != 0 },
    );
    proof {
        assert(actions@ =~= old(actions)@ + button_changes(was, is));
    }
}

/// Lets go of the pen; see [`release_actions`].
pub fn release_pen(pen: &mut PenState, actions: &mut Vec<PenAction>)
    ensures
        *final(pen) == no_pen(),
        final(actions)@ == old(actions)@ + release_actions(*old(pen)),
{
    if pen.active_tool.is_some() {
        actions.push(PenAction::TipUp);
        sync_pen_buttons(actions, pen.buttons, 0);
        actions.push(PenAction::ProximityOut);
    }
    proof {
        assert(actions@ =~= old(actions)@ + release_actions(*pen));
    }
    pen.active_tool = None;
    pen.buttons = 0;
}

/// Adds what is done for a pen at a place; see [`pen_strokes`].
fn push_pen_strokes(actions: &mut Vec<PenAction>, pen: &PenState, e: &PenInput)
    ensures
        final(actions)@ == old(actions)@ + pen_strokes(*pen, *e),
{
    if e.event_kind == POINTER_EVENT_HOVER {
        actions.push(PenAction::Distance { bits: e.pressure_bits });
    } else {
        actions.push(PenAction::Pressure { bits: e.pressure_bits });
    }
    let degrees: u8 = if e.tilt < 90 {
        e.tilt
    } else {
        90
    };
    push_pen_if(
        actions,
        e.rotation != ROTATION_UNKNOWN && e.tilt != TILT_UNKNOWN,
        PenAction::Tilt { rotation: e.rotation, degrees },
    );
    actions.push(PenAction::Motion);
    sync_pen_buttons(actions, pen.buttons, e.buttons);
    push_pen_if(
        actions,
        e.event_kind == POINTER_EVENT_DOWN || e.event_kind == POINTER_EVENT_MOVE,
        PenAction::TipDown,
    );
    push_pen_if(actions, e.event_kind == POINTER_EVENT_UP, PenAction::TipUp);
    proof {
        assert(actions@ =~= old(actions)@ + pen_strokes(*pen, *e));
    }
}

/// Handles a pen event; see [`pen_after`] and [`pen_actions`]. `tablet` says
/// that there is a tablet, `focus` that there is a surface under the pen.
pub fn process_pen_input(pen: &mut PenState, e: &PenInput, tablet: bool, focus: bool) -> (actions: Vec<
    PenAction,
>)
    ensures
        *final(pen) == pen_after(*old(pen), *e, tablet, focus),
        actions@ == pen_actions(*old(pen), *e, tablet, focus),
{
    let mut actions: Vec<PenAction> = Vec::new();
    if e.event_kind == POINTER_EVENT_CANCEL || e.event_kind == POINTER_EVENT_HOVER_LEAVE || e.event_kind
        == POINTER_EVENT_CANCEL_ALL {
        release_pen(pen, &mut actions);
        proof {
            assert(actions@ =~= release_actions(*old(pen)));
        }
        return actions;
    }
    if e.event_kind == POINTER_EVENT_BUTTON_ONLY {
        if pen.active_tool.is_some() {
            sync_pen_buttons(&mut actions, pen.buttons, e.buttons);
            proof {
                assert(actions@ =~= button_changes(pen.buttons, e.buttons));
            }
            pen.buttons = e.buttons;
        }
        return actions;
    }
    if let Some(tool) = pen.active_tool {
        if tool != e.tool_kind {
            release_pen(pen, &mut actions);
        }
    }
    let ghost switched = *pen;
    let ghost release = actions@;
    proof {
        assert(switched == pen_switched(*old(pen), e.tool_kind));
        assert(release =~= if switched == *old(pen) {
            Seq::empty()
        } else {
            release_actions(*old(pen))
        });
    }
    if !tablet {
        return actions;
    }
    actions.push(PenAction::SetCursor);
    proof {
        assert(actions@ =~= release + seq![PenAction::SetCursor]);
    }
    if pen.active_tool.is_none() {
        if !focus {
            return actions;
        }
        push_pen_if(&mut actions, true, PenAction::ProximityIn { tool: e.tool_kind });
        pen.active_tool = Some(e.tool_kind);
    } else {
        proof {
            assert(actions@ + Seq::<PenAction>::empty() =~= actions@);
        }
    }
    push_pen_strokes(&mut actions, pen, e);
    proof {
        assert(pen_strokes(*pen, *e) == pen_strokes(switched, *e));
    }
    pen.buttons = e.buttons;
    actions
}

/// After a pen went away no tool and no button is left, whatever came before;
/// and a pen that goes away when none was near does nothing.
pub proof fn pen_leaves_nothing_behind(pen: PenState, e: PenInput, tablet: bool, focus: bool)
    requires
        ends_pen(e.event_kind),
    ensures
        pen_after(pen, e, tablet, focus) == no_pen(),
        pen_actions(no_pen(), e, tablet, focus).len() == 0,
{
}

/// Releasing all buttons of a pen undoes exactly the buttons that were
/// pressed among the three that a pen has.
pub proof fn pen_buttons_balance(buttons: u8)
    ensures
        button_changes(0, buttons).len() == button_changes(buttons, 0).len(),
        buttons & 7 == 0 ==> button_changes(buttons, 0).len() == 0,
{
    assert(0u8 & 1 == 0 && 0u8 & 2 == 0 && 0u8 & 4 == 0) by (bit_vector);
    assert(buttons & 7 == 0 ==> buttons & 1 == 0 && buttons & 2 == 0 && buttons & 4 == 0) by (bit_vector);
}

// ---------------------------------------------------------------------------
// All events
// ---------------------------------------------------------------------------

/// What input changes besides the seat.
#[derive(Clone, Copy, Debug, PartialEq, Eq, Structural)]
pub struct InputState {
    /// When the pointer was last active, in nanoseconds.
    pub last_pointer_activity: Option<u64>,
    /// The pen.
    pub pen: PenState,
}

/// What has to be known of the seat to handle an event.
#[derive(Clone, Copy, Debug, PartialEq, Eq, Structural)]
pub struct SeatFacts {
    /// There is a keyboard.
    pub keyboard: bool,
    /// There is a touchscreen.
    pub touch: bool,
    /// There is a tablet.
    pub tablet: bool,
    /// A surface under the pointer has it locked.
    pub pointer_locked: bool,
    /// There is a surface under the pen.
    pub pen_focus: bool,
}

/// An event that shows the cursor: every one of pointer and pen.
pub open spec fn shows_cursor(e: CompositorInputEvent) -> bool {
    match e {
        CompositorInputEvent::KeyDown { .. } => false,
        CompositorInputEvent::KeyUp { .. } => false,
        CompositorInputEvent::TouchDown { .. } => false,
        CompositorInputEvent::TouchMove { .. } => false,
        CompositorInputEvent::TouchUp { .. } => false,
        CompositorInputEvent::TouchCancelAll => false,
        _ => true,
    }
}

/// An event whose numbers can be computed with: a key code that leaves room
/// for the offset to XKB codes, a vertical scroll that can be negated.
pub open spec fn event_in_range(e: CompositorInputEvent) -> bool {
    match e {
        CompositorInputEvent::KeyDown { keycode } => keycode <= u32::MAX - 8,
        CompositorInputEvent::KeyUp { keycode } => keycode <= u32::MAX - 8,
        CompositorInputEvent::ScrollVertical { amount } => amount > i16::MIN,
        _ => true,
    }
}

/// A range that a coordinate is out of: the client's screen, if it has a size.
pub open spec fn range_of(size: i16) -> Option<i16> {
    if size > 0 {
        Some(size)
    } else {
        None
    }
}

/// What an event calls for on the seat.
pub open spec fn seat_actions(e: CompositorInputEvent, pen: PenState, facts: SeatFacts) -> Seq<SeatAction> {
    match e {
        CompositorInputEvent::KeyDown { keycode } => if facts.keyboard {
            seq![SeatAction::Key { code: (keycode + 8) as u32, pressed: true }]
        } else {
            Seq::empty()
        },
        CompositorInputEvent::KeyUp { keycode } => if facts.keyboard {
            seq![SeatAction::Key { code: (keycode + 8) as u32, pressed: false }]
        } else {
            Seq::empty()
        },
        CompositorInputEvent::MouseMoveAbsolute { x, y, screen_width, screen_height } => seq![
            SeatAction::SetCursor {
                x,
                range_x: range_of(screen_width),
                y,
                range_y: range_of(screen_height),
            },
            SeatAction::ClampCursor,
            SeatAction::PointerMotion,
            SeatAction::PointerFrame,
        ],
        CompositorInputEvent::MouseMoveRelative { dx, dy } => if facts.pointer_locked {
            seq![
                SeatAction::RelativeMotion { dx, dy },
                SeatAction::MoveCursor { dx, dy },
                SeatAction::ClampCursor,
                SeatAction::PointerFrame,
            ]
        } else {
            seq![
                SeatAction::RelativeMotion { dx, dy },
                SeatAction::MoveCursor { dx, dy },
                SeatAction::ClampCursor,
                SeatAction::PointerMotion,
                SeatAction::PointerFrame,
            ]
        },
        CompositorInputEvent::MouseButtonDown { button } => seq![
            SeatAction::Button { button, pressed: true },
            SeatAction::PointerFrame,
        ],
        CompositorInputEvent::MouseButtonUp { button } => seq![
            SeatAction::Button { button, pressed: false },
            SeatAction::PointerFrame,
        ],
        CompositorInputEvent::ScrollVertical { amount } => seq![
            SeatAction::Axis { vertical: true, v120: -amount as i32 },
            SeatAction::PointerFrame,
        ],
        CompositorInputEvent::ScrollHorizontal { amount } => seq![
            SeatAction::Axis { vertical: false, v120: amount as i32 },
            SeatAction::PointerFrame,
        ],
        CompositorInputEvent::TouchDown { slot, x_bits, y_bits } => if facts.touch {
            seq![SeatAction::TouchDown { slot, x_bits, y_bits }, SeatAction::TouchFrame]
        } else {
            Seq::empty()
        },
        CompositorInputEvent::TouchMove { slot, x_bits, y_bits } => if facts.touch {
            seq![SeatAction::TouchMotion { slot, x_bits, y_bits }, SeatAction::TouchFrame]
        } else {
            Seq::empty()
        },
        CompositorInputEvent::TouchUp { slot } => if facts.touch {
            seq![SeatAction::TouchUp { slot }, SeatAction::TouchFrame]
        } else {
            Seq::empty()
        },
        CompositorInputEvent::TouchCancelAll => if facts.touch {
            seq![SeatAction::TouchCancel]
        } else {
            Seq::empty()
        },
        CompositorInputEvent::Pen { pen: e } => pen_actions(
            pen,
            e,
            facts.tablet,
            facts.pen_focus,
        ).map_values(|action: PenAction| SeatAction::Pen { action }),
    }
}

/// The state after an event.
pub open spec fn input_after(s: InputState, e: CompositorInputEvent, facts: SeatFacts, now: u64) -> InputState {
    InputState {
        last_pointer_activity: if shows_cursor(e) { Some(now) } else { s.last_pointer_activity },
        pen: match e {
            CompositorInputEvent::Pen { pen: e } => pen_after(s.pen, e, facts.tablet, facts.pen_focus),
            _ => s.pen,
        },
    }
}

/// One action.
fn one(a: SeatAction) -> (v: Vec<SeatAction>)
    ensures
        v@ == seq![a],
{
    let mut v: Vec<SeatAction> = Vec::new();
    v.push(a);
    proof {
        assert(v@ =~= seq![a]);
    }
    v
}

/// Two actions.
fn two(a: SeatAction, b: SeatAction) -> (v: Vec<SeatAction>)
    ensures
        v@ == seq![a, b],
{
    let mut v = one(a);
    v.push(b);
    proof {
        assert(v@ =~= seq![a, b]);
    }
    v
}

/// The range of a coordinate; see [`range_of`].
fn range_for(size: i16) -> (r: Option<i16>)
    ensures
        r == range_of(size),
{
    if size > 0 {
        Some(size)
    } else {
        None
    }
}

/// Handles an input event: what it calls for on the seat is returned, in
/// order; see [`seat_actions`] and [`input_after`]. `now` is the time in
/// nanoseconds.
pub fn process_input(e: &CompositorInputEvent, state: &mut InputState, facts: &SeatFacts, now: u64) -> (
    actions: Vec<SeatAction>)
    requires
        event_in_range(*e),
    ensures
        actions@ == seat_actions(*e, old(state).pen, *facts),
        *final(state) == input_after(*old(state), *e, *facts, now),
{
    let shows = match e {
        CompositorInputEvent::KeyDown { .. } => false,
        CompositorInputEvent::KeyUp { .. } => false,
        CompositorInputEvent::TouchDown { .. } => false,
        CompositorInputEvent::TouchMove { .. } => false,
        CompositorInputEvent::TouchUp { .. } => false,
        CompositorInputEvent::TouchCancelAll => false,
        _ => true,
    };
    if shows {
        state.last_pointer_activity = Some(now);
    }
    match e {
        CompositorInputEvent::KeyDown { keycode } => {
            if facts.keyboard {
                one(SeatAction::Key { code: *keycode + 8, pressed: true })
            } else {
                Vec::new()
            }
        },
        CompositorInputEvent::KeyUp { keycode } => {
            if facts.keyboard {
                one(SeatAction::Key { code: *keycode + 8, pressed: false })
            } else {
                Vec::new()
            }
        },
        CompositorInputEvent::MouseMoveAbsolute { x, y, screen_width, screen_height } => {
            let set = SeatAction::SetCursor {
                x: *x,
                range_x: range_for(*screen_width),
                y: *y,
                range_y: range_for(*screen_height),
            };
            let mut v = two(set, SeatAction::ClampCursor);
            v.push(SeatAction::PointerMotion);
            v.push(SeatAction::PointerFrame);
            proof {
                assert(v@ =~= seat_actions(*e, old(state).pen, *facts));
            }
            v
        },
        CompositorInputEvent::MouseMoveRelative { dx, dy } => {
            let mut v = two(
                SeatAction::RelativeMotion { dx: *dx, dy: *dy },
                SeatAction::MoveCursor { dx: *dx, dy: *dy },
            );
            v.push(SeatAction::ClampCursor);
            if !facts.pointer_locked {
                v.push(SeatAction::PointerMotion);
            }
            v.push(SeatAction::PointerFrame);
            proof {
                assert(v@ =~= seat_actions(*e, old(state).pen, *facts));
            }
            v
        },
        CompositorInputEvent::MouseButtonDown { button } => two(
            SeatAction::Button { button: *button, pressed: true },
            SeatAction::PointerFrame,
        ),
        CompositorInputEvent::MouseButtonUp { button } => two(
            SeatAction::Button { button: *button, pressed: false },
            SeatAction::PointerFrame,
        ),
        CompositorInputEvent::ScrollVertical { amount } => two(
            SeatAction::Axis { vertical: true, v120: -(*amount as i32) },
            SeatAction::PointerFrame,
        ),
        CompositorInputEvent::ScrollHorizontal { amount } => two(
            SeatAction::Axis { vertical: false, v120: *amount as i32 },
            SeatAction::PointerFrame,
        ),
        CompositorInputEvent::TouchDown { slot, x_bits, y_bits } => {
            if facts.touch {
                two(
                    SeatAction::TouchDown { slot: *slot, x_bits: *x_bits, y_bits: *y_bits },
                    SeatAction::TouchFrame,
                )
            } else {
                Vec::new()
            }
        },
        CompositorInputEvent::TouchMove { slot, x_bits, y_bits } => {
            if facts.touch {
                two(
                    SeatAction::TouchMotion { slot: *slot, x_bits: *x_bits, y_bits: *y_bits },
                    SeatAction::TouchFrame,
                )
            } else {
                Vec::new()
            }
        },
        CompositorInputEvent::TouchUp { slot } => {
            if facts.touch {
                two(SeatAction::TouchUp { slot: *slot }, SeatAction::TouchFrame)
            } else {
                Vec::new()
            }
        },
        CompositorInputEvent::TouchCancelAll => {
            if facts.touch {
                one(SeatAction::TouchCancel)
            } else {
                Vec::new()
            }
        },
        CompositorInputEvent::Pen { pen } => {
            let pen_actions = process_pen_input(&mut state.pen, pen, facts.tablet, facts.pen_focus);
            let mut v: Vec<SeatAction> = Vec::new();
            let ghost f = |action: PenAction| SeatAction::Pen { action };
            let mut i: usize = 0;
            while i < pen_actions.len()
                invariant
                    i <= pen_actions@.len(),
                    f == (|action: PenAction| SeatAction::Pen { action }),
                    v@ == pen_actions@.take(i as int).map_values(f),
                decreases pen_actions@.len() - i,
            {
                v.push(SeatAction::Pen { action: pen_actions[i] });
                i += 1;
                proof {
                    assert(v@ =~= pen_actions@.take(i as int).map_values(f));
                }
            }
            proof {
                assert(pen_actions@.take(pen_actions@.len() as int) == pen_actions@);
            }
            v
        },
    }
}

// ---------------------------------------------------------------------------
// Bounds and routing
// ---------------------------------------------------------------------------

/// Where the cursor may be.
#[derive(Clone, Copy, Debug, PartialEq, Eq, Structural)]
pub struct CursorBounds {
    pub min_x: i64,
    pub min_y: i64,
    pub max_x: i64,
    pub max_y: i64,
}

/// The smaller of two numbers.
pub open spec fn lesser(a: int, b: int) -> int {
    if a <= b {
        a
    } else {
        b
    }
}

/// The larger of two numbers.
pub open spec fn greater(a: int, b: int) -> int {
    if a >= b {
        a
    } else {
        b
    }
}

/// Where the cursor may be: on an output of `width` by `height`, and on the
/// override window, where there is one.
pub fn cursor_bounds(width: i32, height: i32, override_window: Option<Rectangle>) -> (r: CursorBounds)
    ensures
        ({
            let out = (0int, 0int, width - 1, height - 1);
            match override_window {
                None => (r.min_x as int, r.min_y as int, r.max_x as int, r.max_y as int) == out,
                Some(geo) => {
                    &&& r.min_x == lesser(0, geo.x as int)
                    &&& r.min_y == lesser(0, geo.y as int)
                    &&& r.max_x == greater(width - 1, geo.x + geo.w - 1)
                    &&& r.max_y == greater(height - 1, geo.y + geo.h - 1)
                },
            }
        }),
        width > 0 && height > 0 ==> r.min_x <= 0 <= r.max_x && r.min_y <= 0 <= r.max_y,
{
    let mut r = CursorBounds {
        min_x: 0,
        min_y: 0,
        max_x: width as i64 - 1,
        max_y: height as i64 - 1,
    };
    if let Some(geo) = override_window {
        let right: i64 = geo.x as i64 + geo.w as i64 - 1;
        let bottom: i64 = geo.y as i64 + geo.h as i64 - 1;
        if (geo.x as i64) < r.min_x {
            r.min_x = geo.x as i64;
        }
        if (geo.y as i64) < r.min_y {
            r.min_y = geo.y as i64;
        }
        if right > r.max_x {
            r.max_x = right;
        }
        if bottom > r.max_y {
            r.max_y = bottom;
        }
    }
    r
}

/// The largest coordinates on an output: one less than its size, at least 0.
pub fn location_limits(width: i32, height: i32) -> (r: (i32, i32))
    ensures
        r.0 == greater(width - 1, 0),
        r.1 == greater(height - 1, 0),
{
    (
        if width > 0 {
            width - 1
        } else {
            0
        },
        if height > 0 {
            height - 1
        } else {
            0
        },
    )
}

/// What is known of the places that pointer events could go to.
#[derive(Clone, Copy, Debug, PartialEq, Eq, Structural)]
pub struct PointerFacts {
    /// There is an override window.
    pub override_window: bool,
    /// The override window has a place on the stack.
    pub override_placed: bool,
    /// A surface of the override window is under the pointer.
    pub override_hit: bool,
    /// The scene is replaced by one surface.
    pub bypass: bool,
    /// An X11 window has the focus.
    pub focused_x11: bool,
    /// That window is on the stack.
    pub focused_placed: bool,
    /// A surface of that window is under the pointer.
    pub focused_hit: bool,
    /// That window has a surface at all.
    pub focused_surface: bool,
    /// The surface that replaces the scene is known.
    pub bypass_surface: bool,
    /// Some surface is under the pointer.
    pub under: bool,
}

/// Where pointer events go.
#[derive(Clone, Copy, Debug, PartialEq, Eq, Structural)]
pub enum PointerRoute {
    /// The surface of the override window under the pointer.
    OverrideWindow,
    /// The surface of the focused X11 window under the pointer.
    FocusedHit,
    /// The focused X11 window's own surface.
    FocusedSurface,
    /// The surface that replaces the scene.
    Bypass,
    /// The surface under the pointer.
    UnderCursor,
}

/// Where pointer events go: to the override window unless the scene is
/// replaced; while it is, to the focused X11 window, or to the surface that
/// replaces it; else to what is under the pointer.
pub open spec fn pointer_route(f: PointerFacts) -> Option<PointerRoute> {
    if f.override_window && !f.bypass && !f.override_placed {
        None
    } else if f.override_window && !f.bypass && f.override_hit {
        Some(PointerRoute::OverrideWindow)
    } else if f.bypass && f.focused_x11 {
        if !f.focused_placed {
            None
        } else if f.focused_hit {
            Some(PointerRoute::FocusedHit)
        } else if f.focused_surface {
            Some(PointerRoute::FocusedSurface)
        } else {
            None
        }
    } else if f.bypass && f.bypass_surface {
        Some(PointerRoute::Bypass)
    } else if f.under {
        Some(PointerRoute::UnderCursor)
    } else {
        None
    }
}

/// Decides where pointer events go; see [`pointer_route`].
pub fn find_surface_at(f: &PointerFacts) -> (r: Option<PointerRoute>)
    ensures
        r == pointer_route(*f),
{
    if f.override_window && !f.bypass {
        if !f.override_placed {
            return None;
        }
        if f.override_hit {
            return Some(PointerRoute::OverrideWindow);
        }
    }
    if f.bypass {
        if f.focused_x11 {
            if !f.focused_placed {
                return None;
            }
            if f.focused_hit {
                return Some(PointerRoute::FocusedHit);
            }
            if f.focused_surface {
                return Some(PointerRoute::FocusedSurface);
            }
            return None;
        }
        if f.bypass_surface {
            return Some(PointerRoute::Bypass);
        }
    }
    if f.under {
        Some(PointerRoute::UnderCursor)
    } else {
        None
    }
}

/// While the scene is replaced by one surface, the override window, which is
/// not drawn then, gets no pointer events.
pub proof fn hidden_override_gets_no_input(f: PointerFacts)
    requires
        f.bypass,
    ensures
        pointer_route(f) != Some(PointerRoute::OverrideWindow),
{
}

/// Keys, buttons and scrolling reach the seat as the client sent them: a key
/// by its code and eight, pressed or released; a button by its code; a scroll
/// by its amount, where upwards is negative; and nothing else comes with them
/// but what ends a group of pointer events.
pub proof fn keys_and_buttons_reach_the_seat(pen: PenState, facts: SeatFacts, code: u32, amount: i16)
    requires
        code <= u32::MAX - 8,
        amount > i16::MIN,
    ensures
        ({
            let down = seat_actions(CompositorInputEvent::KeyDown { keycode: code }, pen, facts);
            let up = seat_actions(CompositorInputEvent::KeyUp { keycode: code }, pen, facts);
            &&& down.len() == (if facts.keyboard { 1int } else { 0 }) && up.len() == down.len()
            &&& facts.keyboard ==> (down[0] matches SeatAction::Key { code: c, pressed } && c - 8 == code
                && pressed)
            &&& facts.keyboard ==> (up[0] matches SeatAction::Key { code: c, pressed } && c - 8 == code
                && !pressed)
        }),
        ({
            let down = seat_actions(CompositorInputEvent::MouseButtonDown { button: code }, pen, facts);
            let up = seat_actions(CompositorInputEvent::MouseButtonUp { button: code }, pen, facts);
            &&& down.len() == 2 && up.len() == 2
            &&& down[0] matches SeatAction::Button { button, pressed } && button == code && pressed
            &&& up[0] matches SeatAction::Button { button, pressed } && button == code && !pressed
            &&& down[1] is PointerFrame && up[1] is PointerFrame
        }),
        ({
            let v = seat_actions(CompositorInputEvent::ScrollVertical { amount }, pen, facts);
            let h = seat_actions(CompositorInputEvent::ScrollHorizontal { amount }, pen, facts);
            &&& v.len() == 2 && h.len() == 2
            &&& v[0] matches SeatAction::Axis { vertical, v120 } && vertical && v120 + amount == 0
            &&& h[0] matches SeatAction::Axis { vertical, v120 } && !vertical && v120 == amount
            &&& v[1] is PointerFrame && h[1] is PointerFrame
        }),
{
}

/// Motion reaches the seat: to a place it sets the cursor there, as a part of
/// the client's screen; by an amount it moves the cursor by as much and is
/// sent as it is. The cursor is kept within its bounds, and what is under it is
/// told, unless it has the pointer locked.
pub proof fn motion_reaches_the_seat(
    pen: PenState,
    facts: SeatFacts,
    x: i16,
    y: i16,
    screen_width: i16,
    screen_height: i16,
)
    ensures
        ({
            let a = seat_actions(
                CompositorInputEvent::MouseMoveAbsolute { x, y, screen_width, screen_height },
                pen,
                facts,
            );
            &&& a.len() == 4
            &&& a[0] matches SeatAction::SetCursor { x: cx, range_x, y: cy, range_y } && cx == x && cy == y
                && range_x == (if screen_width > 0 { Some(screen_width) } else { None }) && range_y == (
            if screen_height > 0 { Some(screen_height) } else { None })
            &&& a[1] is ClampCursor && a[2] is PointerMotion && a[3] is PointerFrame
        }),
        ({
            let a = seat_actions(CompositorInputEvent::MouseMoveRelative { dx: x, dy: y }, pen, facts);
            &&& a[0] matches SeatAction::RelativeMotion { dx, dy } && dx == x && dy == y
            &&& a[1] matches SeatAction::MoveCursor { dx, dy } && dx == x && dy == y
            &&& a[2] is ClampCursor
            &&& a.last() is PointerFrame
            &&& facts.pointer_locked ==> a.len() == 4
            &&& !facts.pointer_locked ==> a.len() == 5 && a[3] is PointerMotion
        }),
{
}

/// Fingers reach the touchscreen, if there is one: each by its number, where
/// it is put down or moved to.
pub proof fn fingers_reach_the_touchscreen(pen: PenState, facts: SeatFacts, slot: u32, x_bits: u32, y_bits: u32)
    ensures
        ({
            let down = seat_actions(CompositorInputEvent::TouchDown { slot, x_bits, y_bits }, pen, facts);
            let moved = seat_actions(CompositorInputEvent::TouchMove { slot, x_bits, y_bits }, pen, facts);
            let up = seat_actions(CompositorInputEvent::TouchUp { slot }, pen, facts);
            let all = seat_actions(CompositorInputEvent::TouchCancelAll, pen, facts);
            &&& !facts.touch ==> down.len() == 0 && moved.len() == 0 && up.len() == 0 && all.len() == 0
            &&& facts.touch ==> down.len() == 2 && down[1] is TouchFrame && (
            down[0] matches SeatAction::TouchDown { slot: s, x_bits: x, y_bits: y } && s == slot && x
                == x_bits && y == y_bits)
            &&& facts.touch ==> moved.len() == 2 && moved[1] is TouchFrame && (
            moved[0] matches SeatAction::TouchMotion { slot: s, x_bits: x, y_bits: y } && s == slot && x
                == x_bits && y == y_bits)
            &&& facts.touch ==> up.len() == 2 && up[1] is TouchFrame && (
            up[0] matches SeatAction::TouchUp { slot: s } && s == slot)
            &&& facts.touch ==> all.len() == 1 && all[0] is TouchCancel
        }),
{
}

/// The cursor is shown for what pointer and pen do, not for keys and fingers;
/// and only a pen changes what is known of the pen.
pub proof fn pointer_shows_the_cursor(s: InputState, e: CompositorInputEvent, facts: SeatFacts, now: u64)
    ensures
        e is KeyDown || e is KeyUp || e is TouchDown || e is TouchMove || e is TouchUp || e is TouchCancelAll
            ==> input_after(s, e, facts, now).last_pointer_activity == s.last_pointer_activity,
        e is MouseMoveAbsolute || e is MouseMoveRelative || e is MouseButtonDown || e is MouseButtonUp
            || e is ScrollVertical || e is ScrollHorizontal || e is Pen ==> input_after(
            s,
            e,
            facts,
            now,
        ).last_pointer_activity == Some(now),
        !(e is Pen) ==> input_after(s, e, facts, now).pen == s.pen,
{
}

/// A button of the pen is pressed or released exactly when its bit changes, as
/// its bit is then, and only the three buttons of a pen are.
pub proof fn pen_buttons_follow_their_bits(was: u8, is: u8, button: u32, pressed: bool)
    ensures
        button_changes(was, is).contains(PenAction::Button { button, pressed }) <==> {
            ||| button == 0x14B && (was & 1 != is & 1) && pressed == (is & 1 != 0)
            ||| button == 0x14C && (was & 2 != is & 2) && pressed == (is & 2 != 0)
            ||| button == 0x149 && (was & 4 != is & 4) && pressed == (is & 4 != 0)
        },
{
    let a = PenAction::Button { button, pressed };
    let x = button_change(was, is, 1, BTN_STYLUS);
    let y = button_change(was, is, 2, BTN_STYLUS2);
    let z = button_change(was, is, 4, BTN_STYLUS3);
    pen_in_either(x, y, a);
    pen_in_either(x + y, z, a);
    pen_one_or_none(
        was & 1 != is & 1,
        PenAction::Button { button: BTN_STYLUS, pressed: is & 1 != 0 },
        a,
    );
    pen_one_or_none(
        was & 2 != is & 2,
        PenAction::Button { button: BTN_STYLUS2, pressed: is & 2 != 0 },
        a,
    );
    pen_one_or_none(
        was & 4 != is & 4,
        PenAction::Button { button: BTN_STYLUS3, pressed: is & 4 != 0 },
        a,
    );
}

/// An action is in two lists together if it is in one of them.
proof fn pen_in_either(x: Seq<PenAction>, y: Seq<PenAction>, a: PenAction)
    ensures
        (x + y).contains(a) == (x.contains(a) || y.contains(a)),
{
    if x.contains(a) {
        let k = choose|k: int| 0 <= k < x.len() && x[k] == a;
        assert((x + y)[k] == a);
    }
    if y.contains(a) {
        let k = choose|k: int| 0 <= k < y.len() && y[k] == a;
        assert((x + y)[x.len() + k] == a);
    }
    if (x + y).contains(a) {
        let k = choose|k: int| 0 <= k < (x + y).len() && (x + y)[k] == a;
        if k < x.len() {
            assert(x[k] == a);
        } else {
            assert(y[k - x.len()] == a);
        }
    }
}

/// An action that is taken only on a condition.
proof fn pen_one_or_none(c: bool, a: PenAction, other: PenAction)
    ensures
        pen_if(c, a).contains(other) == (c && a == other),
{
    if c {
        assert(pen_if(c, a)[0] == a);
    }
}

/// A pen at a place is near with its tool and its buttons, where there is a
/// tablet and a surface under it; buttons alone change nothing but the buttons
/// of a pen that is near.
pub proof fn pen_is_as_it_was_last_seen(pen: PenState, e: PenInput, tablet: bool, focus: bool)
    ensures
        e.event_kind <= 3 && tablet && focus ==> pen_after(pen, e, tablet, focus) == (PenState {
            active_tool: Some(e.tool_kind),
            buttons: e.buttons,
        }),
        e.event_kind <= 3 && tablet && pen.active_tool == Some(e.tool_kind) ==> pen_after(
            pen,
            e,
            tablet,
            focus,
        ) == (PenState { active_tool: Some(e.tool_kind), buttons: e.buttons }),
        e.event_kind == 4 || e.event_kind == 6 || e.event_kind == 7 ==> pen_after(pen, e, tablet, focus)
            == (PenState { active_tool: None, buttons: 0 }),
        e.event_kind == 5 ==> pen_after(pen, e, tablet, focus).active_tool == pen.active_tool,
        e.event_kind == 5 && pen.active_tool is Some ==> pen_after(pen, e, tablet, focus).buttons == e.buttons,
{
}

/// What a pen does at a place: its tip touches when it goes down or moves and
/// is lifted when it goes up; how far it is is told while it hovers, how hard
/// it is pressed otherwise; how it is held only where that is known, and never
/// as more than upright.
pub proof fn pen_does_what_it_is_seen_to_do(pen: PenState, e: PenInput, degrees: u8, rotation: u16)
    ensures
        pen_strokes(pen, e).contains(PenAction::TipDown) <==> e.event_kind == 1 || e.event_kind == 3,
        pen_strokes(pen, e).contains(PenAction::TipUp) <==> e.event_kind == 2,
        pen_strokes(pen, e).contains(PenAction::Motion),
        pen_strokes(pen, e).contains(PenAction::Distance { bits: e.pressure_bits }) <==> e.event_kind == 0,
        pen_strokes(pen, e).contains(PenAction::Pressure { bits: e.pressure_bits }) <==> e.event_kind != 0,
        pen_strokes(pen, e).contains(PenAction::Tilt { rotation, degrees }) <==> e.rotation != 0xFFFF
            && e.tilt != 0xFF && rotation == e.rotation && (if e.tilt <= 90 { degrees == e.tilt } else { degrees
            == 90 }),
{
    strokes_hold(pen, e, PenAction::TipDown);
    strokes_hold(pen, e, PenAction::TipUp);
    strokes_hold(pen, e, PenAction::Motion);
    strokes_hold(pen, e, PenAction::Distance { bits: e.pressure_bits });
    strokes_hold(pen, e, PenAction::Pressure { bits: e.pressure_bits });
    strokes_hold(pen, e, PenAction::Tilt { rotation, degrees });
}

/// What a pen does at a place, other than with its buttons, piece by piece.
proof fn strokes_hold(pen: PenState, e: PenInput, a: PenAction)
    requires
        !(a is Button),
    ensures
        pen_strokes(pen, e).contains(a) == ({
            ||| a == (if e.event_kind == 0 {
                PenAction::Distance { bits: e.pressure_bits }
            } else {
                PenAction::Pressure { bits: e.pressure_bits }
            })
            ||| (e.rotation != 0xFFFF && e.tilt != 0xFF && a == (PenAction::Tilt {
                rotation: e.rotation,
                degrees: if e.tilt < 90 { e.tilt } else { 90 },
            }))
            ||| a == PenAction::Motion
            ||| ((e.event_kind == 1 || e.event_kind == 3) && a == PenAction::TipDown)
            ||| (e.event_kind == 2 && a == PenAction::TipUp)
        }),
{
    let first = if e.event_kind == POINTER_EVENT_HOVER {
        PenAction::Distance { bits: e.pressure_bits }
    } else {
        PenAction::Pressure { bits: e.pressure_bits }
    };
    let tilt = PenAction::Tilt { rotation: e.rotation, degrees: if e.tilt < 90 { e.tilt } else { 90 } };
    let held = e.rotation != ROTATION_UNKNOWN && e.tilt != TILT_UNKNOWN;
    let touches = e.event_kind == POINTER_EVENT_DOWN || e.event_kind == POINTER_EVENT_MOVE;
    let p1 = seq![first];
    let p2 = pen_if(held, tilt);
    let p3 = seq![PenAction::Motion];
    let p4 = button_changes(pen.buttons, e.buttons);
    let p5 = pen_if(touches, PenAction::TipDown);
    let p6 = pen_if(e.event_kind == POINTER_EVENT_UP, PenAction::TipUp);
    pen_in_either(p1, p2, a);
    pen_in_either(p1 + p2, p3, a);
    pen_in_either(p1 + p2 + p3, p4, a);
    pen_in_either(p1 + p2 + p3 + p4, p5, a);
    pen_in_either(p1 + p2 + p3 + p4 + p5, p6, a);
    assert(p1[0] == first);
    assert(p3[0] == PenAction::Motion);
    pen_one_or_none(held, tilt, a);
    pen_one_or_none(touches, PenAction::TipDown, a);
    pen_one_or_none(e.event_kind == POINTER_EVENT_UP, PenAction::TipUp, a);
}

/// The pointer goes to what the user sees under it: the override window where
/// it is hit, the focused window or the surface in its place while the scene is
/// replaced, and else whatever surface is under it.
pub proof fn pointer_goes_to_what_is_seen(f: PointerFacts)
    ensures
        !f.bypass && !f.override_window ==> (pointer_route(f) == if f.under {
            Some(PointerRoute::UnderCursor)
        } else {
            None
        }),
        !f.bypass && f.override_window && f.override_placed && f.override_hit ==> pointer_route(f) == Some(
            PointerRoute::OverrideWindow,
        ),
        !f.bypass && f.override_window && f.override_placed && !f.override_hit && f.under ==> pointer_route(f)
            == Some(PointerRoute::UnderCursor),
        !f.bypass && f.override_window && !f.override_placed ==> pointer_route(f) is None,
        f.bypass && f.focused_x11 && f.focused_placed && f.focused_hit ==> pointer_route(f) == Some(
            PointerRoute::FocusedHit,
        ),
        f.bypass && f.focused_x11 && f.focused_placed && !f.focused_hit && f.focused_surface
            ==> pointer_route(f) == Some(PointerRoute::FocusedSurface),
        f.bypass && f.focused_x11 && !f.focused_placed ==> pointer_route(f) is None,
        f.bypass && !f.focused_x11 && f.bypass_surface ==> pointer_route(f) == Some(PointerRoute::Bypass),
        f.bypass && !f.focused_x11 && !f.bypass_surface && f.under ==> pointer_route(f) == Some(
            PointerRoute::UnderCursor,
        ),
{
}

/// A pen that goes away is let go of: its tip is lifted, its buttons are
/// released and it is out of proximity, in this order; where there is none
/// nothing is done.
pub proof fn pens_are_let_go_of(pen: PenState)
    ensures
        pen.active_tool is None ==> release_actions(pen).len() == 0,
        pen.active_tool is Some ==> {
            let a = release_actions(pen);
            &&& a.len() == 2 + button_changes(pen.buttons, 0).len()
            &&& a[0] is TipUp
            &&& a.last() is ProximityOut
            &&& forall|i: int|
                0 < i < a.len() - 1 ==> #[trigger] a[i] == button_changes(pen.buttons, 0)[i - 1]
        },
        no_pen().active_tool is None && no_pen().buttons == 0,
{
}

/// The pen goes away when the event is a cancel, a hover leave or a cancel of
/// all, and only then.
pub proof fn three_events_end_the_pen(kind: u8)
    ensures
        ends_pen(kind) <==> kind == 4 || kind == 6 || kind == 7,
{
}

} // verus!
