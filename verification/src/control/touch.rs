//! Touch and pen events as they come in.
use vstd::prelude::*;

use crate::bytes;

verus! {

/// The least length of a touch or pen event.
pub const POINTER_PAYLOAD_SIZE: usize = 28;

/// What a touch or pen does.
#[derive(Clone, Copy, Debug, PartialEq, Eq, Structural)]
pub enum PointerEventKind {
    Hover,
    Down,
    Up,
    Move,
    Cancel,
    ButtonOnly,
    HoverLeave,
    CancelAll,
}

impl PointerEventKind {
    /// The number of a kind on the wire.
    pub open spec fn number(self) -> int {
        match self {
            PointerEventKind::Hover => 0,
            PointerEventKind::Down => 1,
            PointerEventKind::Up => 2,
            PointerEventKind::Move => 3,
            PointerEventKind::Cancel => 4,
            PointerEventKind::ButtonOnly => 5,
            PointerEventKind::HoverLeave => 6,
            PointerEventKind::CancelAll => 7,
        }
    }

    /// The event happens at a place.
    pub open spec fn at_place(self) -> bool {
        self.number() <= 3
    }

    /// The kind of a number on the wire.
    pub fn from_repr(n: u8) -> (r: Option<Self>)
        ensures
            r matches Some(kind) ==> kind.number() == n,
            r is None ==> n > 7,
    {
        match n {
            0 => Some(PointerEventKind::Hover),
            1 => Some(PointerEventKind::Down),
            2 => Some(PointerEventKind::Up),
            3 => Some(PointerEventKind::Move),
            4 => Some(PointerEventKind::Cancel),
            5 => Some(PointerEventKind::ButtonOnly),
            6 => Some(PointerEventKind::HoverLeave),
            7 => Some(PointerEventKind::CancelAll),
            _ => None,
        }
    }

    /// The number of a kind on the wire.
    pub fn to_repr(self) -> (n: u8)
        ensures
            n == self.number(),
    {
        match self {
            PointerEventKind::Hover => 0,
            PointerEventKind::Down => 1,
            PointerEventKind::Up => 2,
            PointerEventKind::Move => 3,
            PointerEventKind::Cancel => 4,
            PointerEventKind::ButtonOnly => 5,
            PointerEventKind::HoverLeave => 6,
            PointerEventKind::CancelAll => 7,
        }
    }

    /// Whether the event happens at a place.
    pub fn has_position(self) -> (r: bool)
        ensures
            r == self.at_place(),
    {
        match self {
            PointerEventKind::Hover => true,
            PointerEventKind::Down => true,
            PointerEventKind::Up => true,
            PointerEventKind::Move => true,
            _ => false,
        }
    }
}

/// What a pen is.
#[derive(Clone, Copy, Debug, PartialEq, Eq, Structural)]
pub enum PenToolKind {
    Unknown,
    Pen,
    Eraser,
}

impl PenToolKind {
    /// The number of a tool on the wire.
    pub open spec fn number(self) -> int {
        match self {
            PenToolKind::Unknown => 0,
            PenToolKind::Pen => 1,
            PenToolKind::Eraser => 2,
        }
    }

    /// The tool of a number on the wire.
    pub fn from_repr(n: u8) -> (r: Option<Self>)
        ensures
            r matches Some(kind) ==> kind.number() == n,
            r is None ==> n > 2,
    {
        match n {
            0 => Some(PenToolKind::Unknown),
            1 => Some(PenToolKind::Pen),
            2 => Some(PenToolKind::Eraser),
            _ => None,
        }
    }

    /// The number of a tool on the wire.
    pub fn to_repr(self) -> (n: u8)
        ensures
            n == self.number(),
    {
        match self {
            PenToolKind::Unknown => 0,
            PenToolKind::Pen => 1,
            PenToolKind::Eraser => 2,
        }
    }
}

/// A floating-point number of 32 bits, given by its bits, is finite: its
/// exponent is not all ones.
pub open spec fn finite(bits: int) -> bool {
    (bits / 0x80_0000) % 0x100 != 0xFF
}

/// Whether a floating-point number of 32 bits is finite; see [`finite`].
pub fn is_finite(bits: u32) -> (r: bool)
    ensures
        r == finite(bits as int),
{
    (bits / 0x80_0000) % 0x100 != 0xFF
}

/// A touch; the place is a fraction of the screen, given by the bits of a
/// floating-point number of 32 bits.
#[derive(Clone, Copy, Debug, PartialEq, Eq, Structural)]
pub struct Touch {
    pub event_kind: PointerEventKind,
    pub pointer_id: u32,
    pub x_bits: u32,
    pub y_bits: u32,
}

/// A byte string that holds a touch: long enough, of a known kind, at a
/// finite place if it has one.
pub open spec fn touch_ok(b: Seq<u8>) -> bool {
    b.len() >= POINTER_PAYLOAD_SIZE && b[0] <= 7 && (b[0] <= 3 ==> finite(bytes::le32(b, 8)) && finite(
        bytes::le32(b, 12),
    ))
}

impl Touch {
    /// Reads a touch: kind, pointer and place.
    pub fn from_bytes(buffer: &[u8]) -> (r: Result<Self, ()>)
        ensures
            r is Ok <==> touch_ok(buffer@),
            r matches Ok(t) ==> {
                &&& t.event_kind.number() == buffer@[0]
                &&& t.pointer_id == bytes::le32(buffer@, 4)
                &&& t.x_bits == bytes::le32(buffer@, 8)
                &&& t.y_bits == bytes::le32(buffer@, 12)
            },
    {
        if buffer.len() < POINTER_PAYLOAD_SIZE {
            return Err(());
        }
        let event_kind = match PointerEventKind::from_repr(buffer[0]) {
            Some(kind) => kind,
            None => return Err(()),
        };
        let x_bits = bytes::read_le32(buffer, 8);
        let y_bits = bytes::read_le32(buffer, 12);
        if event_kind.has_position() && (!is_finite(x_bits) || !is_finite(y_bits)) {
            return Err(());
        }
        Ok(Touch { event_kind, pointer_id: bytes::read_le32(buffer, 4), x_bits, y_bits })
    }
}

/// A pen event; place and pressure or distance are fractions, given by the
/// bits of floating-point numbers of 32 bits.
#[derive(Clone, Copy, Debug, PartialEq, Eq, Structural)]
pub struct Pen {
    pub event_kind: PointerEventKind,
    pub tool_kind: PenToolKind,
    pub buttons: u8,
    pub x_bits: u32,
    pub y_bits: u32,
    pub pressure_bits: u32,
    pub rotation: u16,
    pub tilt: u8,
}

/// A byte string that holds a pen event: long enough, of a known kind and
/// tool, with finite numbers if it has a place.
pub open spec fn pen_ok(b: Seq<u8>) -> bool {
    b.len() >= POINTER_PAYLOAD_SIZE && b[0] <= 7 && b[1] <= 2 && (b[0] <= 3 ==> finite(
        bytes::le32(b, 4),
    ) && finite(bytes::le32(b, 8)) && finite(bytes::le32(b, 12)))
}

impl Pen {
    /// Reads a pen event: kind, tool, buttons, place, pressure or distance,
    /// rotation and tilt.
    pub fn from_bytes(buffer: &[u8]) -> (r: Result<Self, ()>)
        ensures
            r is Ok <==> pen_ok(buffer@),
            r matches Ok(p) ==> {
                &&& p.event_kind.number() == buffer@[0]
                &&& p.tool_kind.number() == buffer@[1]
                &&& p.buttons == buffer@[2]
                &&& p.x_bits == bytes::le32(buffer@, 4)
                &&& p.y_bits == bytes::le32(buffer@, 8)
                &&& p.pressure_bits == bytes::le32(buffer@, 12)
                &&& p.rotation == bytes::le16(buffer@, 16)
                &&& p.tilt == buffer@[18]
            },
    {
        if buffer.len() < POINTER_PAYLOAD_SIZE {
            return Err(());
        }
        let event_kind = match PointerEventKind::from_repr(buffer[0]) {
            Some(kind) => kind,
            None => return Err(()),
        };
        let tool_kind = match PenToolKind::from_repr(buffer[1]) {
            Some(kind) => kind,
            None => return Err(()),
        };
        let x_bits = bytes::read_le32(buffer, 4);
        let y_bits = bytes::read_le32(buffer, 8);
        let pressure_bits = bytes::read_le32(buffer, 12);
        if event_kind.has_position() && (!is_finite(x_bits) || !is_finite(y_bits) || !is_finite(
            pressure_bits,
        )) {
            return Err(());
        }
        Ok(
            Pen {
                event_kind,
                tool_kind,
                buttons: buffer[2],
                x_bits,
                y_bits,
                pressure_bits,
                rotation: bytes::read_le16(buffer, 16),
                tilt: buffer[18],
            },
        )
    }
}

/// A number is finite exactly if its exponent is not all ones, whatever its
/// sign and its mantissa.
pub proof fn exponent_tells_finite(sign: bool, exponent: int, mantissa: int)
    requires
        0 <= exponent < 256,
        0 <= mantissa < 0x80_0000,
    ensures
        finite((if sign { 0x8000_0000int } else { 0 }) + exponent * 0x80_0000 + mantissa) == (exponent != 255),
{
    let s: int = if sign {
        256
    } else {
        0
    };
    let bits = (if sign { 0x8000_0000int } else { 0 }) + exponent * 0x80_0000 + mantissa;
    assert(bits / 0x80_0000 == s + exponent);
}

/// A touch is read exactly from bytes that are long enough, of a known kind,
/// and whose place is finite where the kind has a place; what stands behind the
/// place does not matter.
pub proof fn touches_are_read(b: Seq<u8>, c: Seq<u8>)
    requires
        b.len() >= 28,
        c.len() >= 28,
    ensures
        b[0] > 7 ==> !touch_ok(b) && !pen_ok(b),
        4 <= b[0] <= 7 ==> touch_ok(b),
        4 <= b[0] <= 7 && b[1] <= 2 ==> pen_ok(b),
        b[1] > 2 ==> !pen_ok(b),
        (forall|i: int| 0 <= i < 16 ==> #[trigger] b[i] == c[i]) ==> touch_ok(b) == touch_ok(c) && pen_ok(b)
            == pen_ok(c),
        !touch_ok(b.take(27)) && !pen_ok(b.take(27)),
{
}

/// Kinds and tools are known by their numbers on the wire, and the first four
/// kinds happen at a place.
pub proof fn kinds_have_their_numbers(kind: PointerEventKind, tool: PenToolKind)
    ensures
        kind is Hover <==> kind.number() == 0,
        kind is Down <==> kind.number() == 1,
        kind is Up <==> kind.number() == 2,
        kind is Move <==> kind.number() == 3,
        kind is Cancel <==> kind.number() == 4,
        kind is ButtonOnly <==> kind.number() == 5,
        kind is HoverLeave <==> kind.number() == 6,
        kind is CancelAll <==> kind.number() == 7,
        kind.at_place() <==> kind is Hover || kind is Down || kind is Up || kind is Move,
        tool is Unknown <==> tool.number() == 0,
        tool is Pen <==> tool.number() == 1,
        tool is Eraser <==> tool.number() == 2,
{
}

/// The exponent of the number in the four bytes from `i` on.
pub open spec fn exponent_at(b: Seq<u8>, i: int) -> int {
    (b[i + 3] as int % 128) * 2 + b[i + 2] as int / 128
}

/// Each number of a place is looked at: a touch at a place is read exactly if
/// both of its numbers are finite, a pen exactly if all three are.
pub proof fn places_are_finite(b: Seq<u8>)
    requires
        b.len() >= 28,
        b[0] <= 3,
    ensures
        touch_ok(b) <==> exponent_at(b, 8) != 255 && exponent_at(b, 12) != 255,
        b[1] <= 2 ==> (pen_ok(b) <==> exponent_at(b, 4) != 255 && exponent_at(b, 8) != 255 && exponent_at(
            b,
            12,
        ) != 255),
{
    exponent_is_read(b, 4);
    exponent_is_read(b, 8);
    exponent_is_read(b, 12);
}

/// The exponent of a number stands in its two highest bytes.
proof fn exponent_is_read(b: Seq<u8>, i: int)
    requires
        0 <= i,
        i + 4 <= b.len(),
    ensures
        finite(bytes::le32(b, i)) <==> exponent_at(b, i) != 255,
{
    let bits = bytes::le32(b, i);
    let low = b[i] as int + 0x100 * (b[i + 1] as int);
    let third = b[i + 2] as int;
    let top = b[i + 3] as int;
    assert(bits == low + 0x1_0000 * third + 0x100_0000 * top);
    assert(bits / 0x80_0000 == 2 * top + third / 128);
}

} // verus!
