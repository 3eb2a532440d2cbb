//! Kinds of input events.
use vstd::prelude::*;

use crate::bytes;
use crate::compositor::input::CompositorInputEvent;
use crate::text;

verus! {

/// What an input event is about.
#[derive(Clone, Copy, Debug, PartialEq, Eq, Structural)]
pub enum InputEventType {
    KeyDown,
    KeyUp,
    MouseMoveAbsolute,
    MouseMoveRelative,
    MouseButtonDown,
    MouseButtonUp,
    MouseScrollVertical,
    MouseScrollHorizontal,
    GamepadInfo,
    GamepadTouch,
    GamepadMotion,
    GamepadBattery,
    GamepadUpdate,
    GamepadEnableHaptics,
}

impl InputEventType {
    /// The number of a type on the wire.
    pub open spec fn number(self) -> int {
        match self {
            InputEventType::KeyDown => 0x3,
            InputEventType::KeyUp => 0x4,
            InputEventType::MouseMoveAbsolute => 0x5,
            InputEventType::MouseMoveRelative => 0x7,
            InputEventType::MouseButtonDown => 0x8,
            InputEventType::MouseButtonUp => 0x9,
            InputEventType::MouseScrollVertical => 0xA,
            InputEventType::MouseScrollHorizontal => 0x5500_0001,
            InputEventType::GamepadInfo => 0x5500_0004,
            InputEventType::GamepadTouch => 0x5500_0005,
            InputEventType::GamepadMotion => 0x5500_0006,
            InputEventType::GamepadBattery => 0x5500_0007,
            InputEventType::GamepadUpdate => 0xC,
            InputEventType::GamepadEnableHaptics => 0xD,
        }
    }

    /// The event goes to the gamepads; others go to the compositor.
    pub open spec fn for_gamepads(self) -> bool {
        match self {
            InputEventType::GamepadInfo => true,
            InputEventType::GamepadTouch => true,
            InputEventType::GamepadMotion => true,
            InputEventType::GamepadBattery => true,
            InputEventType::GamepadUpdate => true,
            InputEventType::GamepadEnableHaptics => true,
            _ => false,
        }
    }

    /// The type of a number on the wire.
    pub fn from_repr(n: u32) -> (r: Option<Self>)
        ensures
            r matches Some(t) ==> t.number() == n,
            r is None ==> forall|t: InputEventType| t.number() != n,
    {
        match n {
            0x3 => Some(InputEventType::KeyDown),
            0x4 => Some(InputEventType::KeyUp),
            0x5 => Some(InputEventType::MouseMoveAbsolute),
            0x7 => Some(InputEventType::MouseMoveRelative),
            0x8 => Some(InputEventType::MouseButtonDown),
            0x9 => Some(InputEventType::MouseButtonUp),
            0xA => Some(InputEventType::MouseScrollVertical),
            0x5500_0001 => Some(InputEventType::MouseScrollHorizontal),
            0x5500_0004 => Some(InputEventType::GamepadInfo),
            0x5500_0005 => Some(InputEventType::GamepadTouch),
            0x5500_0006 => Some(InputEventType::GamepadMotion),
            0x5500_0007 => Some(InputEventType::GamepadBattery),
            0xC => Some(InputEventType::GamepadUpdate),
            0xD => Some(InputEventType::GamepadEnableHaptics),
            _ => None,
        }
    }

    /// Whether the event goes to the gamepads; others go to the compositor.
    pub fn is_gamepad(self) -> (r: bool)
        ensures
            r == self.for_gamepads(),
    {
        match self {
            InputEventType::GamepadInfo => true,
            InputEventType::GamepadTouch => true,
            InputEventType::GamepadMotion => true,
            InputEventType::GamepadBattery => true,
            InputEventType::GamepadUpdate => true,
            InputEventType::GamepadEnableHaptics => true,
            _ => false,
        }
    }
}

/// No two types have the same number.
pub proof fn event_numbers_are_distinct(a: InputEventType, b: InputEventType)
    requires
        a.number() == b.number(),
    ensures
        a == b,
{
}

/// An input event: its type and the bytes that describe it.
pub struct InputEvent {
    pub event_type: InputEventType,
    pub payload: Vec<u8>,
}

impl InputEvent {
    /// Reads an event: four bytes of type, then its description. Fails on
    /// fewer bytes and on a type that is not known.
    pub fn from_bytes(buffer: &[u8]) -> (r: Result<Self, ()>)
        ensures
            r is Ok <==> buffer@.len() >= 4 && exists|t: InputEventType|
                #[trigger] t.number() == bytes::le32(buffer@, 0),
            r matches Ok(e) ==> e.event_type.number() == bytes::le32(buffer@, 0) && e.payload@
                == buffer@.skip(4),
    {
        if buffer.len() < 4 {
            return Err(());
        }
        match InputEventType::from_repr(bytes::read_le32(buffer, 0)) {
            Some(event_type) => {
                let payload = text::sub_bytes(buffer, 4, buffer.len());
                proof {
                    assert(payload@ == buffer@.skip(4));
                }
                Ok(InputEvent { event_type, payload })
            },
            None => Err(()),
        }
    }
}

/// What an input event says, read from its bytes. Key codes and button codes
/// are those of the Linux input layer.
#[derive(Clone, Copy, Debug, PartialEq, Eq, Structural)]
pub enum ReadInput {
    /// A key went down; not every key has a code.
    KeyDown { keycode: Option<u32> },
    /// A key went up; not every key has a code.
    KeyUp { keycode: Option<u32> },
    /// The pointer moved to a place on the client's screen.
    MouseMoveAbsolute { x: i16, y: i16, screen_width: i16, screen_height: i16 },
    /// The pointer moved by so much.
    MouseMoveRelative { x: i16, y: i16 },
    /// A mouse button went down.
    MouseButtonDown { button: u32 },
    /// A mouse button went up.
    MouseButtonUp { button: u32 },
    /// Vertical scroll.
    MouseScrollVertical { amount: i16 },
    /// Horizontal scroll.
    MouseScrollHorizontal { amount: i16 },
    /// Something about a gamepad.
    Gamepad,
}

/// Where an input event goes.
#[derive(Clone, Copy, Debug, PartialEq, Eq, Structural)]
pub enum InputRoute {
    /// To the compositor, as this event.
    Compositor(CompositorInputEvent),
    /// To the gamepads.
    Gamepads,
    /// Nowhere.
    Dropped,
}

/// Where an input event goes: all about gamepads to them, the rest to the
/// compositor but for keys without a code.
pub open spec fn route_of(event: ReadInput) -> InputRoute {
    match event {
        ReadInput::KeyDown { keycode: Some(keycode) } => InputRoute::Compositor(
            CompositorInputEvent::KeyDown { keycode },
        ),
        ReadInput::KeyUp { keycode: Some(keycode) } => InputRoute::Compositor(
            CompositorInputEvent::KeyUp { keycode },
        ),
        ReadInput::KeyDown { keycode: None } => InputRoute::Dropped,
        ReadInput::KeyUp { keycode: None } => InputRoute::Dropped,
        ReadInput::MouseMoveAbsolute { x, y, screen_width, screen_height } => InputRoute::Compositor(
            CompositorInputEvent::MouseMoveAbsolute { x, y, screen_width, screen_height },
        ),
        ReadInput::MouseMoveRelative { x, y } => InputRoute::Compositor(
            CompositorInputEvent::MouseMoveRelative { dx: x, dy: y },
        ),
        ReadInput::MouseButtonDown { button } => InputRoute::Compositor(
            CompositorInputEvent::MouseButtonDown { button },
        ),
        ReadInput::MouseButtonUp { button } => InputRoute::Compositor(
            CompositorInputEvent::MouseButtonUp { button },
        ),
        ReadInput::MouseScrollVertical { amount } => InputRoute::Compositor(
            CompositorInputEvent::ScrollVertical { amount },
        ),
        ReadInput::MouseScrollHorizontal { amount } => InputRoute::Compositor(
            CompositorInputEvent::ScrollHorizontal { amount },
        ),
        ReadInput::Gamepad => InputRoute::Gamepads,
    }
}

/// Where an input event goes; see [`route_of`].
pub fn handle_input(event: &ReadInput) -> (r: InputRoute)
    ensures
        r == route_of(*event),
{
    match *event {
        ReadInput::KeyDown { keycode: Some(keycode) } => InputRoute::Compositor(
            CompositorInputEvent::KeyDown { keycode },
        ),
        ReadInput::KeyUp { keycode: Some(keycode) } => InputRoute::Compositor(
            CompositorInputEvent::KeyUp { keycode },
        ),
        ReadInput::KeyDown { keycode: None } => InputRoute::Dropped,
        ReadInput::KeyUp { keycode: None } => InputRoute::Dropped,
        ReadInput::MouseMoveAbsolute { x, y, screen_width, screen_height } => InputRoute::Compositor(
            CompositorInputEvent::MouseMoveAbsolute { x, y, screen_width, screen_height },
        ),
        ReadInput::MouseMoveRelative { x, y } => InputRoute::Compositor(
            CompositorInputEvent::MouseMoveRelative { dx: x, dy: y },
        ),
        ReadInput::MouseButtonDown { button } => InputRoute::Compositor(
            CompositorInputEvent::MouseButtonDown { button },
        ),
        ReadInput::MouseButtonUp { button } => InputRoute::Compositor(
            CompositorInputEvent::MouseButtonUp { button },
        ),
        ReadInput::MouseScrollVertical { amount } => InputRoute::Compositor(
            CompositorInputEvent::ScrollVertical { amount },
        ),
        ReadInput::MouseScrollHorizontal { amount } => InputRoute::Compositor(
            CompositorInputEvent::ScrollHorizontal { amount },
        ),
        ReadInput::Gamepad => InputRoute::Gamepads,
    }
}

/// Input reaches what it is for, unchanged: keys with a code, motion, buttons
/// and scrolling go to the compositor as they are, what is about gamepads goes
/// to the gamepads, and only keys without a code go nowhere.
pub proof fn input_reaches_what_it_is_for(code: u32, x: i16, y: i16, w: i16, h: i16)
    ensures
        route_of(ReadInput::KeyDown { keycode: Some(code) }) matches InputRoute::Compositor(e)
            && e matches CompositorInputEvent::KeyDown { keycode } && keycode == code,
        route_of(ReadInput::KeyUp { keycode: Some(code) }) matches InputRoute::Compositor(e)
            && e matches CompositorInputEvent::KeyUp { keycode } && keycode == code,
        route_of(ReadInput::MouseMoveAbsolute { x, y, screen_width: w, screen_height: h }) matches InputRoute::Compositor(
            e,
        ) && e matches CompositorInputEvent::MouseMoveAbsolute { x: a, y: b, screen_width: c, screen_height: d }
            && a == x && b == y && c == w && d == h,
        route_of(ReadInput::MouseMoveRelative { x, y }) matches InputRoute::Compositor(e)
            && e matches CompositorInputEvent::MouseMoveRelative { dx, dy } && dx == x && dy == y,
        route_of(ReadInput::MouseButtonDown { button: code }) matches InputRoute::Compositor(e)
            && e matches CompositorInputEvent::MouseButtonDown { button } && button == code,
        route_of(ReadInput::MouseButtonUp { button: code }) matches InputRoute::Compositor(e)
            && e matches CompositorInputEvent::MouseButtonUp { button } && button == code,
        route_of(ReadInput::MouseScrollVertical { amount: x }) matches InputRoute::Compositor(e)
            && e matches CompositorInputEvent::ScrollVertical { amount } && amount == x,
        route_of(ReadInput::MouseScrollHorizontal { amount: x }) matches InputRoute::Compositor(e)
            && e matches CompositorInputEvent::ScrollHorizontal { amount } && amount == x,
        route_of(ReadInput::Gamepad) is Gamepads,
        forall|e: ReadInput|
            (#[trigger] route_of(e)) is Dropped <==> e == (ReadInput::KeyDown { keycode: None }) || e == (
            ReadInput::KeyUp { keycode: None }),
{
}

/// A type of event is known by its number on the wire.
pub proof fn event_types_have_their_numbers(t: InputEventType)
    ensures
        t is KeyDown <==> t.number() == 3,
        t is KeyUp <==> t.number() == 4,
        t is MouseMoveAbsolute <==> t.number() == 5,
        t is MouseMoveRelative <==> t.number() == 7,
        t is MouseButtonDown <==> t.number() == 8,
        t is MouseButtonUp <==> t.number() == 9,
        t is MouseScrollVertical <==> t.number() == 10,
        t is GamepadUpdate <==> t.number() == 12,
        t is GamepadEnableHaptics <==> t.number() == 13,
        t is MouseScrollHorizontal <==> t.number() == 0x5500_0001,
        t is GamepadInfo <==> t.number() == 0x5500_0004,
        t is GamepadTouch <==> t.number() == 0x5500_0005,
        t is GamepadMotion <==> t.number() == 0x5500_0006,
        t is GamepadBattery <==> t.number() == 0x5500_0007,
        t.for_gamepads() <==> t.number() == 12 || t.number() == 13 || t.number() >= 0x5500_0004,
{
}

} // verus!
