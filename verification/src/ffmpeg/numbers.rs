//! Numbers of the media library: error codes, pixel formats and channel
//! layouts.
use vstd::prelude::*;

verus! {

/// The machine's byte order is big-endian.
pub const AV_HAVE_BIGENDIAN: u32 = 0;

/// The pixel format for the machine's byte order.
pub fn av_pix_fmt_ne(be: i32, le: i32) -> (r: i32)
    ensures
        r == if AV_HAVE_BIGENDIAN != 0 {
            be
        } else {
            le
        },
{
    if AV_HAVE_BIGENDIAN != 0 {
        be
    } else {
        le
    }
}

/// The error code of a system error number.
pub fn av_error(error: i32) -> (r: i32)
    requires
        error != i32::MIN,
    ensures
        r == -error,
{
    -error
}

/// Four characters in one number, the first in the lowest byte.
pub open spec fn tag(a: char, b: char, c: char, d: char) -> i32 {
    (a as u32 | (b as u32) << 8 | (c as u32) << 16 | (d as u32) << 24) as i32
}

/// Four characters in one number; see [`tag`].
pub fn mktag(a: char, b: char, c: char, d: char) -> (r: i32)
    ensures
        r == tag(a, b, c, d),
{
    let bits: u32 = a as u32 | (b as u32) << 8 | (c as u32) << 16 | (d as u32) << 24;
    #[verifier::truncate]
    let r: i32 = bits as i32;
    r
}

/// Of ASCII characters the tag is the sum of the shifted bytes.
pub proof fn ascii_tag_is_a_sum(a: char, b: char, c: char, d: char)
    requires
        (a as u32) < 0x80,
        (b as u32) < 0x80,
        (c as u32) < 0x80,
        (d as u32) < 0x80,
    ensures
        tag(a, b, c, d) == a as int + 0x100 * (b as int) + 0x1_0000 * (c as int) + 0x100_0000 * (d as int),
{
    let (w, x, y, z): (u32, u32, u32, u32) = (a as u32, b as u32, c as u32, d as u32);
    assert((w | x << 8 | y << 16 | z << 24) as i32 == w + 0x100 * x + 0x1_0000 * y + 0x100_0000 * z) by (bit_vector)
        requires
            w < 0x80,
            x < 0x80,
            y < 0x80,
            z < 0x80,
    ;
}

/// The error code of four characters.
pub fn fferrtag(a: char, b: char, c: char, d: char) -> (r: i32)
    requires
        tag(a, b, c, d) != i32::MIN,
    ensures
        r == -tag(a, b, c, d),
{
    -mktag(a, b, c, d)
}

/// Bitstream filter not found.
pub const AVERROR_BSF_NOT_FOUND: i32 = -1179861752;

/// Internal bug.
pub const AVERROR_BUG: i32 = -558323010;

/// Buffer too small.
pub const AVERROR_BUFFER_TOO_SMALL: i32 = -1397118274;

/// Decoder not found.
pub const AVERROR_DECODER_NOT_FOUND: i32 = -1128613112;

/// Demuxer not found.
pub const AVERROR_DEMUXER_NOT_FOUND: i32 = -1296385272;

/// Encoder not found.
pub const AVERROR_ENCODER_NOT_FOUND: i32 = -1129203192;

/// End of file.
pub const AVERROR_EOF: i32 = -541478725;

/// Immediate exit was requested.
pub const AVERROR_EXIT: i32 = -1414092869;

/// Generic error in an external library.
pub const AVERROR_EXTERNAL: i32 = -542398533;

/// Filter not found.
pub const AVERROR_FILTER_NOT_FOUND: i32 = -1279870712;

/// Invalid data found when processing input.
pub const AVERROR_INVALIDDATA: i32 = -1094995529;

/// Muxer not found.
pub const AVERROR_MUXER_NOT_FOUND: i32 = -1481985528;

/// Option not found.
pub const AVERROR_OPTION_NOT_FOUND: i32 = -1414549496;

/// Not yet implemented in FFmpeg, patches welcome.
pub const AVERROR_PATCHWELCOME: i32 = -1163346256;

/// Protocol not found.
pub const AVERROR_PROTOCOL_NOT_FOUND: i32 = -1330794744;

/// Stream not found.
pub const AVERROR_STREAM_NOT_FOUND: i32 = -1381258232;

/// Internal bug, under its later code.
pub const AVERROR_BUG2: i32 = -541545794;

/// Unknown error, typically from an external library.
pub const AVERROR_UNKNOWN: i32 = -1313558101;

/// HTTP: bad request.
pub const AVERROR_HTTP_BAD_REQUEST: i32 = -808465656;

/// HTTP: unauthorized.
pub const AVERROR_HTTP_UNAUTHORIZED: i32 = -825242872;

/// HTTP: forbidden.
pub const AVERROR_HTTP_FORBIDDEN: i32 = -858797304;

/// HTTP: not found.
pub const AVERROR_HTTP_NOT_FOUND: i32 = -875574520;

/// HTTP: other 4xx.
pub const AVERROR_HTTP_OTHER_4XX: i32 = -1482175736;

/// HTTP: server error.
pub const AVERROR_HTTP_SERVER_ERROR: i32 = -1482175992;

/// The system error number of "try again".
pub const EAGAIN: i32 = 11;

/// What a packet that was asked for came to.
#[derive(Clone, Copy, Debug, PartialEq, Eq, Structural)]
pub enum Received {
    /// There is a packet.
    Packet,
    /// There is none for now, or no more.
    Done,
    /// Encoding failed.
    Failed,
}

/// What a packet that was asked for came to, by the code that came back: more
/// input is wanted, and the end of the stream, are no failures.
pub fn received(code: i32) -> (r: Received)
    ensures
        r == if code == 0 {
            Received::Packet
        } else if code == -EAGAIN || code == AVERROR_EOF {
            Received::Done
        } else {
            Received::Failed
        },
{
    if code == 0 {
        Received::Packet
    } else if code == av_error(EAGAIN) || code == AVERROR_EOF {
        Received::Done
    } else {
        Received::Failed
    }
}

/// The channels of audio, each by its bit.
#[derive(Clone, Copy, Debug, PartialEq, Eq, Structural)]
pub struct AVChannelLayout {
    /// How the channels are ordered; 1 is the native order.
    pub order: u32,
    /// Number of channels.
    pub nb_channels: i32,
    /// The bits of the channels.
    pub mask: u64,
}

/// The native order of channels.
pub const AV_CHANNEL_ORDER_NATIVE: u32 = 1;

/// `nb` channels in native order, with the bits `m`.
pub fn av_channel_layout_mask(nb: i32, m: u64) -> (r: AVChannelLayout)
    ensures
        r == (AVChannelLayout { order: AV_CHANNEL_ORDER_NATIVE, nb_channels: nb, mask: m }),
{
    AVChannelLayout { order: AV_CHANNEL_ORDER_NATIVE, nb_channels: nb, mask: m }
}

/// The bit of the front left channel.
pub const AV_CH_FRONT_LEFT: u64 = 0x1;

/// The bit of the front right channel.
pub const AV_CH_FRONT_RIGHT: u64 = 0x2;

/// The bit of the front center channel.
pub const AV_CH_FRONT_CENTER: u64 = 0x4;

/// The bit of the low frequency channel.
pub const AV_CH_LOW_FREQUENCY: u64 = 0x8;

/// The bit of the back left channel.
pub const AV_CH_BACK_LEFT: u64 = 0x10;

/// The bit of the back right channel.
pub const AV_CH_BACK_RIGHT: u64 = 0x20;

/// The bit of the front left of center channel.
pub const AV_CH_FRONT_LEFT_OF_CENTER: u64 = 0x40;

/// The bit of the front right of center channel.
pub const AV_CH_FRONT_RIGHT_OF_CENTER: u64 = 0x80;

/// The bit of the back center channel.
pub const AV_CH_BACK_CENTER: u64 = 0x100;

/// The bit of the side left channel.
pub const AV_CH_SIDE_LEFT: u64 = 0x200;

/// The bit of the side right channel.
pub const AV_CH_SIDE_RIGHT: u64 = 0x400;

/// The bit of the top center channel.
pub const AV_CH_TOP_CENTER: u64 = 0x800;

/// The bit of the top front left channel.
pub const AV_CH_TOP_FRONT_LEFT: u64 = 0x1000;

/// The bit of the top front center channel.
pub const AV_CH_TOP_FRONT_CENTER: u64 = 0x2000;

/// The bit of the top front right channel.
pub const AV_CH_TOP_FRONT_RIGHT: u64 = 0x4000;

/// The bit of the top back left channel.
pub const AV_CH_TOP_BACK_LEFT: u64 = 0x8000;

/// The bit of the top back center channel.
pub const AV_CH_TOP_BACK_CENTER: u64 = 0x10000;

/// The bit of the top back right channel.
pub const AV_CH_TOP_BACK_RIGHT: u64 = 0x20000;

/// The bit of the stereo left channel.
pub const AV_CH_STEREO_LEFT: u64 = 0x20000000;

/// The bit of the stereo right channel.
pub const AV_CH_STEREO_RIGHT: u64 = 0x40000000;

/// The bit of the wide left channel.
pub const AV_CH_WIDE_LEFT: u64 = 0x80000000;

/// The bit of the wide right channel.
pub const AV_CH_WIDE_RIGHT: u64 = 0x100000000;

/// The bit of the surround direct left channel.
pub const AV_CH_SURROUND_DIRECT_LEFT: u64 = 0x200000000;

/// The bit of the surround direct right channel.
pub const AV_CH_SURROUND_DIRECT_RIGHT: u64 = 0x400000000;

/// The bit of the low frequency 2 channel.
pub const AV_CH_LOW_FREQUENCY_2: u64 = 0x800000000;

/// The bit of the top side left channel.
pub const AV_CH_TOP_SIDE_LEFT: u64 = 0x1000000000;

/// The bit of the top side right channel.
pub const AV_CH_TOP_SIDE_RIGHT: u64 = 0x2000000000;

/// The bit of the bottom front center channel.
pub const AV_CH_BOTTOM_FRONT_CENTER: u64 = 0x4000000000;

/// The bit of the bottom front left channel.
pub const AV_CH_BOTTOM_FRONT_LEFT: u64 = 0x8000000000;

/// The bit of the bottom front right channel.
pub const AV_CH_BOTTOM_FRONT_RIGHT: u64 = 0x10000000000;

/// The bits of the mono layout.
pub const AV_CH_LAYOUT_MONO: u64 = AV_CH_FRONT_CENTER;

/// The bits of the stereo layout.
pub const AV_CH_LAYOUT_STEREO: u64 = AV_CH_FRONT_LEFT | AV_CH_FRONT_RIGHT;

/// The bits of the 2point1 layout.
pub const AV_CH_LAYOUT_2POINT1: u64 = AV_CH_LAYOUT_STEREO | AV_CH_LOW_FREQUENCY;

/// The bits of the 2 1 layout.
pub const AV_CH_LAYOUT_2_1: u64 = AV_CH_LAYOUT_STEREO | AV_CH_BACK_CENTER;

/// The bits of the surround layout.
pub const AV_CH_LAYOUT_SURROUND: u64 = AV_CH_LAYOUT_STEREO | AV_CH_FRONT_CENTER;

/// The bits of the 3point1 layout.
pub const AV_CH_LAYOUT_3POINT1: u64 = AV_CH_LAYOUT_SURROUND | AV_CH_LOW_FREQUENCY;

/// The bits of the 4point0 layout.
pub const AV_CH_LAYOUT_4POINT0: u64 = AV_CH_LAYOUT_SURROUND | AV_CH_BACK_CENTER;

/// The bits of the 4point1 layout.
pub const AV_CH_LAYOUT_4POINT1: u64 = AV_CH_LAYOUT_4POINT0 | AV_CH_LOW_FREQUENCY;

/// The bits of the 2 2 layout.
pub const AV_CH_LAYOUT_2_2: u64 = AV_CH_LAYOUT_STEREO | AV_CH_SIDE_LEFT | AV_CH_SIDE_RIGHT;

/// The bits of the quad layout.
pub const AV_CH_LAYOUT_QUAD: u64 = AV_CH_LAYOUT_STEREO | AV_CH_BACK_LEFT | AV_CH_BACK_RIGHT;

/// The bits of the 5point0 layout.
pub const AV_CH_LAYOUT_5POINT0: u64 = AV_CH_LAYOUT_SURROUND | AV_CH_SIDE_LEFT | AV_CH_SIDE_RIGHT;

/// The bits of the 5point1 layout.
pub const AV_CH_LAYOUT_5POINT1: u64 = AV_CH_LAYOUT_5POINT0 | AV_CH_LOW_FREQUENCY;

/// The bits of the 5point0 back layout.
pub const AV_CH_LAYOUT_5POINT0_BACK: u64 = AV_CH_LAYOUT_SURROUND | AV_CH_BACK_LEFT | AV_CH_BACK_RIGHT;

/// The bits of the 5point1 back layout.
pub const AV_CH_LAYOUT_5POINT1_BACK: u64 = AV_CH_LAYOUT_5POINT0_BACK | AV_CH_LOW_FREQUENCY;

/// The bits of the 6point0 layout.
pub const AV_CH_LAYOUT_6POINT0: u64 = AV_CH_LAYOUT_5POINT0 | AV_CH_BACK_CENTER;

/// The bits of the 6point0 front layout.
pub const AV_CH_LAYOUT_6POINT0_FRONT: u64 = AV_CH_LAYOUT_2_2 | AV_CH_FRONT_LEFT_OF_CENTER | AV_CH_FRONT_RIGHT_OF_CENTER;

/// The bits of the hexagonal layout.
pub const AV_CH_LAYOUT_HEXAGONAL: u64 = AV_CH_LAYOUT_5POINT0_BACK | AV_CH_BACK_CENTER;

/// The bits of the 6point1 layout.
pub const AV_CH_LAYOUT_6POINT1: u64 = AV_CH_LAYOUT_5POINT1 | AV_CH_BACK_CENTER;

/// The bits of the 6point1 back layout.
pub const AV_CH_LAYOUT_6POINT1_BACK: u64 = AV_CH_LAYOUT_5POINT1_BACK | AV_CH_BACK_CENTER;

/// The bits of the 6point1 front layout.
pub const AV_CH_LAYOUT_6POINT1_FRONT: u64 = AV_CH_LAYOUT_6POINT0_FRONT | AV_CH_LOW_FREQUENCY;

/// The bits of the 7point0 layout.
pub const AV_CH_LAYOUT_7POINT0: u64 = AV_CH_LAYOUT_5POINT0 | AV_CH_BACK_LEFT | AV_CH_BACK_RIGHT;

/// The bits of the 7point0 front layout.
pub const AV_CH_LAYOUT_7POINT0_FRONT: u64 = AV_CH_LAYOUT_5POINT0 | AV_CH_FRONT_LEFT_OF_CENTER | AV_CH_FRONT_RIGHT_OF_CENTER;

/// The bits of the 7point1 layout.
pub const AV_CH_LAYOUT_7POINT1: u64 = AV_CH_LAYOUT_5POINT1 | AV_CH_BACK_LEFT | AV_CH_BACK_RIGHT;

/// The bits of the 7point1 wide layout.
pub const AV_CH_LAYOUT_7POINT1_WIDE: u64 = AV_CH_LAYOUT_5POINT1 | AV_CH_FRONT_LEFT_OF_CENTER | AV_CH_FRONT_RIGHT_OF_CENTER;

/// The bits of the 7point1 wide back layout.
pub const AV_CH_LAYOUT_7POINT1_WIDE_BACK: u64 = AV_CH_LAYOUT_5POINT1_BACK | AV_CH_FRONT_LEFT_OF_CENTER | AV_CH_FRONT_RIGHT_OF_CENTER;

/// The bits of the 7point1 top back layout.
pub const AV_CH_LAYOUT_7POINT1_TOP_BACK: u64 = AV_CH_LAYOUT_5POINT1_BACK | AV_CH_TOP_FRONT_LEFT | AV_CH_TOP_FRONT_RIGHT;

/// The bits of the octagonal layout.
pub const AV_CH_LAYOUT_OCTAGONAL: u64 = AV_CH_LAYOUT_5POINT0 | AV_CH_BACK_LEFT | AV_CH_BACK_CENTER | AV_CH_BACK_RIGHT;

/// The bits of the cube layout.
pub const AV_CH_LAYOUT_CUBE: u64 = AV_CH_LAYOUT_QUAD | AV_CH_TOP_FRONT_LEFT | AV_CH_TOP_FRONT_RIGHT | AV_CH_TOP_BACK_LEFT | AV_CH_TOP_BACK_RIGHT;

/// The bits of the hexadecagonal layout.
pub const AV_CH_LAYOUT_HEXADECAGONAL: u64 = AV_CH_LAYOUT_OCTAGONAL | AV_CH_WIDE_LEFT | AV_CH_WIDE_RIGHT | AV_CH_TOP_BACK_LEFT | AV_CH_TOP_BACK_RIGHT | AV_CH_TOP_BACK_CENTER | AV_CH_TOP_FRONT_CENTER | AV_CH_TOP_FRONT_LEFT | AV_CH_TOP_FRONT_RIGHT;

/// The bits of the stereo downmix layout.
pub const AV_CH_LAYOUT_STEREO_DOWNMIX: u64 = AV_CH_STEREO_LEFT | AV_CH_STEREO_RIGHT;

/// The bits of the 22point2 layout.
pub const AV_CH_LAYOUT_22POINT2: u64 = AV_CH_LAYOUT_5POINT1_BACK | AV_CH_FRONT_LEFT_OF_CENTER | AV_CH_FRONT_RIGHT_OF_CENTER | AV_CH_BACK_CENTER | AV_CH_LOW_FREQUENCY_2 | AV_CH_SIDE_LEFT | AV_CH_SIDE_RIGHT | AV_CH_TOP_FRONT_LEFT | AV_CH_TOP_FRONT_RIGHT | AV_CH_TOP_FRONT_CENTER | AV_CH_TOP_CENTER | AV_CH_TOP_BACK_LEFT | AV_CH_TOP_BACK_RIGHT | AV_CH_TOP_SIDE_LEFT | AV_CH_TOP_SIDE_RIGHT | AV_CH_TOP_BACK_CENTER | AV_CH_BOTTOM_FRONT_CENTER | AV_CH_BOTTOM_FRONT_LEFT | AV_CH_BOTTOM_FRONT_RIGHT;

/// The layouts that have a name.
#[derive(Clone, Copy, Debug, PartialEq, Eq, Structural)]
pub enum NamedLayout {
    /// The mono layout.
    Mono,
    /// The stereo layout.
    Stereo,
    /// The 2point1 layout.
    Layout2point1,
    /// The 2 1 layout.
    Layout2By1,
    /// The surround layout.
    Surround,
    /// The 3point1 layout.
    Layout3point1,
    /// The 4point0 layout.
    Layout4point0,
    /// The 4point1 layout.
    Layout4point1,
    /// The 2 2 layout.
    Layout2By2,
    /// The quad layout.
    Quad,
    /// The 5point0 layout.
    Layout5point0,
    /// The 5point1 layout.
    Layout5point1,
    /// The 5point0 back layout.
    Layout5point0Back,
    /// The 5point1 back layout.
    Layout5point1Back,
    /// The 6point0 layout.
    Layout6point0,
    /// The 6point0 front layout.
    Layout6point0Front,
    /// The hexagonal layout.
    Hexagonal,
    /// The 6point1 layout.
    Layout6point1,
    /// The 6point1 back layout.
    Layout6point1Back,
    /// The 6point1 front layout.
    Layout6point1Front,
    /// The 7point0 layout.
    Layout7point0,
    /// The 7point0 front layout.
    Layout7point0Front,
    /// The 7point1 layout.
    Layout7point1,
    /// The 7point1 wide layout.
    Layout7point1Wide,
    /// The 7point1 wide back layout.
    Layout7point1WideBack,
    /// The 7point1 top back layout.
    Layout7point1TopBack,
    /// The octagonal layout.
    Octagonal,
    /// The cube layout.
    Cube,
    /// The hexadecagonal layout.
    Hexadecagonal,
    /// The stereo downmix layout.
    StereoDownmix,
    /// The 22point2 layout.
    Layout22point2,
}

/// Number and bits of the channels of a layout.
pub open spec fn layout_parts(layout: NamedLayout) -> (i32, u64) {
    match layout {
        NamedLayout::Mono => (1, AV_CH_LAYOUT_MONO),
        NamedLayout::Stereo => (2, AV_CH_LAYOUT_STEREO),
        NamedLayout::Layout2point1 => (3, AV_CH_LAYOUT_2POINT1),
        NamedLayout::Layout2By1 => (3, AV_CH_LAYOUT_2_1),
        NamedLayout::Surround => (3, AV_CH_LAYOUT_SURROUND),
        NamedLayout::Layout3point1 => (4, AV_CH_LAYOUT_3POINT1),
        NamedLayout::Layout4point0 => (4, AV_CH_LAYOUT_4POINT0),
        NamedLayout::Layout4point1 => (5, AV_CH_LAYOUT_4POINT1),
        NamedLayout::Layout2By2 => (4, AV_CH_LAYOUT_2_2),
        NamedLayout::Quad => (4, AV_CH_LAYOUT_QUAD),
        NamedLayout::Layout5point0 => (5, AV_CH_LAYOUT_5POINT0),
        NamedLayout::Layout5point1 => (6, AV_CH_LAYOUT_5POINT1),
        NamedLayout::Layout5point0Back => (5, AV_CH_LAYOUT_5POINT0_BACK),
        NamedLayout::Layout5point1Back => (6, AV_CH_LAYOUT_5POINT1_BACK),
        NamedLayout::Layout6point0 => (6, AV_CH_LAYOUT_6POINT0),
        NamedLayout::Layout6point0Front => (6, AV_CH_LAYOUT_6POINT0_FRONT),
        NamedLayout::Hexagonal => (6, AV_CH_LAYOUT_HEXAGONAL),
        NamedLayout::Layout6point1 => (7, AV_CH_LAYOUT_6POINT1),
        NamedLayout::Layout6point1Back => (7, AV_CH_LAYOUT_6POINT1_BACK),
        NamedLayout::Layout6point1Front => (7, AV_CH_LAYOUT_6POINT1_FRONT),
        NamedLayout::Layout7point0 => (7, AV_CH_LAYOUT_7POINT0),
        NamedLayout::Layout7point0Front => (7, AV_CH_LAYOUT_7POINT0_FRONT),
        NamedLayout::Layout7point1 => (8, AV_CH_LAYOUT_7POINT1),
        NamedLayout::Layout7point1Wide => (8, AV_CH_LAYOUT_7POINT1_WIDE),
        NamedLayout::Layout7point1WideBack => (8, AV_CH_LAYOUT_7POINT1_WIDE_BACK),
        NamedLayout::Layout7point1TopBack => (8, AV_CH_LAYOUT_7POINT1_TOP_BACK),
        NamedLayout::Octagonal => (8, AV_CH_LAYOUT_OCTAGONAL),
        NamedLayout::Cube => (8, AV_CH_LAYOUT_CUBE),
        NamedLayout::Hexadecagonal => (16, AV_CH_LAYOUT_HEXADECAGONAL),
        NamedLayout::StereoDownmix => (2, AV_CH_LAYOUT_STEREO_DOWNMIX),
        NamedLayout::Layout22point2 => (24, AV_CH_LAYOUT_22POINT2),
    }
}

/// The channels of a layout; see [`layout_parts`].
pub fn named_layout(layout: NamedLayout) -> (r: AVChannelLayout)
    ensures
        r == (AVChannelLayout {
            order: AV_CHANNEL_ORDER_NATIVE,
            nb_channels: layout_parts(layout).0,
            mask: layout_parts(layout).1,
        }),
{
    match layout {
        NamedLayout::Mono => av_channel_layout_mask(1, AV_CH_LAYOUT_MONO),
        NamedLayout::Stereo => av_channel_layout_mask(2, AV_CH_LAYOUT_STEREO),
        NamedLayout::Layout2point1 => av_channel_layout_mask(3, AV_CH_LAYOUT_2POINT1),
        NamedLayout::Layout2By1 => av_channel_layout_mask(3, AV_CH_LAYOUT_2_1),
        NamedLayout::Surround => av_channel_layout_mask(3, AV_CH_LAYOUT_SURROUND),
        NamedLayout::Layout3point1 => av_channel_layout_mask(4, AV_CH_LAYOUT_3POINT1),
        NamedLayout::Layout4point0 => av_channel_layout_mask(4, AV_CH_LAYOUT_4POINT0),
        NamedLayout::Layout4point1 => av_channel_layout_mask(5, AV_CH_LAYOUT_4POINT1),
        NamedLayout::Layout2By2 => av_channel_layout_mask(4, AV_CH_LAYOUT_2_2),
        NamedLayout::Quad => av_channel_layout_mask(4, AV_CH_LAYOUT_QUAD),
        NamedLayout::Layout5point0 => av_channel_layout_mask(5, AV_CH_LAYOUT_5POINT0),
        NamedLayout::Layout5point1 => av_channel_layout_mask(6, AV_CH_LAYOUT_5POINT1),
        NamedLayout::Layout5point0Back => av_channel_layout_mask(5, AV_CH_LAYOUT_5POINT0_BACK),
        NamedLayout::Layout5point1Back => av_channel_layout_mask(6, AV_CH_LAYOUT_5POINT1_BACK),
        NamedLayout::Layout6point0 => av_channel_layout_mask(6, AV_CH_LAYOUT_6POINT0),
        NamedLayout::Layout6point0Front => av_channel_layout_mask(6, AV_CH_LAYOUT_6POINT0_FRONT),
        NamedLayout::Hexagonal => av_channel_layout_mask(6, AV_CH_LAYOUT_HEXAGONAL),
        NamedLayout::Layout6point1 => av_channel_layout_mask(7, AV_CH_LAYOUT_6POINT1),
        NamedLayout::Layout6point1Back => av_channel_layout_mask(7, AV_CH_LAYOUT_6POINT1_BACK),
        NamedLayout::Layout6point1Front => av_channel_layout_mask(7, AV_CH_LAYOUT_6POINT1_FRONT),
        NamedLayout::Layout7point0 => av_channel_layout_mask(7, AV_CH_LAYOUT_7POINT0),
        NamedLayout::Layout7point0Front => av_channel_layout_mask(7, AV_CH_LAYOUT_7POINT0_FRONT),
        NamedLayout::Layout7point1 => av_channel_layout_mask(8, AV_CH_LAYOUT_7POINT1),
        NamedLayout::Layout7point1Wide => av_channel_layout_mask(8, AV_CH_LAYOUT_7POINT1_WIDE),
        NamedLayout::Layout7point1WideBack => av_channel_layout_mask(8, AV_CH_LAYOUT_7POINT1_WIDE_BACK),
        NamedLayout::Layout7point1TopBack => av_channel_layout_mask(8, AV_CH_LAYOUT_7POINT1_TOP_BACK),
        NamedLayout::Octagonal => av_channel_layout_mask(8, AV_CH_LAYOUT_OCTAGONAL),
        NamedLayout::Cube => av_channel_layout_mask(8, AV_CH_LAYOUT_CUBE),
        NamedLayout::Hexadecagonal => av_channel_layout_mask(16, AV_CH_LAYOUT_HEXADECAGONAL),
        NamedLayout::StereoDownmix => av_channel_layout_mask(2, AV_CH_LAYOUT_STEREO_DOWNMIX),
        NamedLayout::Layout22point2 => av_channel_layout_mask(24, AV_CH_LAYOUT_22POINT2),
    }
}

/// The largest of some rates, nothing where there is none.
pub open spec fn largest(rates: Seq<i32>) -> i32
    decreases rates.len(),
{
    if rates.len() == 0 {
        0
    } else {
        let best = largest(rates.drop_last());
        if rates.last() > best {
            rates.last()
        } else {
            best
        }
    }
}

/// The highest sample rate that a codec supports; 0 where it names none.
pub fn select_sample_rate(supported: &[i32]) -> (r: u32)
    ensures
        r == largest(supported@),
{
    let mut best: i32 = 0;
    let mut i: usize = 0;
    while i < supported.len()
        invariant
            i <= supported@.len(),
            best == largest(supported@.take(i as int)),
            best >= 0,
        decreases supported@.len() - i,
    {
        assert(supported@.take(i + 1).drop_last() == supported@.take(i as int));
        if supported[i] > best {
            best = supported[i];
        }
        i = i + 1;
    }
    assert(supported@.take(supported@.len() as int) == supported@);
    best as u32
}

/// Index of the first layout with the most channels.
pub open spec fn widest(layouts: Seq<AVChannelLayout>) -> int
    decreases layouts.len(),
{
    if layouts.len() <= 1 {
        0
    } else {
        let best = widest(layouts.drop_last());
        if layouts.last().nb_channels > layouts[best].nb_channels {
            layouts.len() - 1
        } else {
            best
        }
    }
}

/// No layout has more channels than the widest.
pub proof fn widest_is_widest(layouts: Seq<AVChannelLayout>)
    requires
        layouts.len() > 0,
    ensures
        0 <= widest(layouts) < layouts.len(),
        forall|i: int| #![trigger layouts[i]] 0 <= i < layouts.len() ==> layouts[i].nb_channels <= layouts[widest(layouts)].nb_channels,
    decreases layouts.len(),
{
    if layouts.len() > 1 {
        let rest = layouts.drop_last();
        widest_is_widest(rest);
        assert forall|i: int| #![trigger layouts[i]] 0 <= i < layouts.len() implies layouts[i].nb_channels
            <= layouts[widest(layouts)].nb_channels by {
            if i < rest.len() {
                assert(rest[i] == layouts[i]);
            }
        }
    }
}

/// The layout with the most channels of those that a codec supports, stereo
/// where it names none.
pub fn select_channel_layout(layouts: Option<&[AVChannelLayout]>) -> (r: AVChannelLayout)
    requires
        layouts matches Some(l) ==> l@.len() > 0,
    ensures
        r == match layouts {
            Some(l) => l@[widest(l@)],
            None => AVChannelLayout {
                order: AV_CHANNEL_ORDER_NATIVE,
                nb_channels: 2,
                mask: AV_CH_LAYOUT_STEREO,
            },
        },
{
    let layouts = match layouts {
        Some(l) => l,
        None => return named_layout(NamedLayout::Stereo),
    };
    let mut best: usize = 0;
    let mut i: usize = 1;
    assert(layouts@.take(1).len() == 1);
    while i < layouts.len()
        invariant
            1 <= i <= layouts@.len(),
            best < i,
            best == widest(layouts@.take(i as int)),
        decreases layouts@.len() - i,
    {
        assert(layouts@.take(i + 1).drop_last() == layouts@.take(i as int));
        if layouts[i].nb_channels > layouts[best].nb_channels {
            best = i;
        }
        i = i + 1;
    }
    assert(layouts@.take(layouts@.len() as int) == layouts@);
    layouts[best]
}

/// How many of the lowest 48 bits are set.
pub open spec fn channels_in(mask: u64) -> int {
    let pairs = (mask & 0x5555_5555_5555) + ((mask >> 1) & 0x5555_5555_5555);
    let fours = (pairs as u64 & 0x3333_3333_3333) + ((pairs as u64 >> 2) & 0x3333_3333_3333);
    let eights = (fours as u64 & 0x0f0f_0f0f_0f0f) + ((fours as u64 >> 4) & 0x0f0f_0f0f_0f0f);
    let all = eights as u64;
    (all & 0xff) + ((all >> 8) & 0xff) + ((all >> 16) & 0xff) + ((all >> 24) & 0xff) + ((all >> 32)
        & 0xff) + ((all >> 40) & 0xff)
}

/// Every layout has the channels that its name stands for, and as many as it
/// says: one bit for each.
pub proof fn layouts_hold_their_channels(layout: NamedLayout)
    ensures
        layout_parts(layout) == match layout {
            NamedLayout::Mono => (1i32, 0x4u64),
            NamedLayout::Stereo => (2i32, 0x3u64),
            NamedLayout::Layout2point1 => (3i32, 0xbu64),
            NamedLayout::Layout2By1 => (3i32, 0x103u64),
            NamedLayout::Surround => (3i32, 0x7u64),
            NamedLayout::Layout3point1 => (4i32, 0xfu64),
            NamedLayout::Layout4point0 => (4i32, 0x107u64),
            NamedLayout::Layout4point1 => (5i32, 0x10fu64),
            NamedLayout::Layout2By2 => (4i32, 0x603u64),
            NamedLayout::Quad => (4i32, 0x33u64),
            NamedLayout::Layout5point0 => (5i32, 0x607u64),
            NamedLayout::Layout5point1 => (6i32, 0x60fu64),
            NamedLayout::Layout5point0Back => (5i32, 0x37u64),
            NamedLayout::Layout5point1Back => (6i32, 0x3fu64),
            NamedLayout::Layout6point0 => (6i32, 0x707u64),
            NamedLayout::Layout6point0Front => (6i32, 0x6c3u64),
            NamedLayout::Hexagonal => (6i32, 0x137u64),
            NamedLayout::Layout6point1 => (7i32, 0x70fu64),
            NamedLayout::Layout6point1Back => (7i32, 0x13fu64),
            NamedLayout::Layout6point1Front => (7i32, 0x6cbu64),
            NamedLayout::Layout7point0 => (7i32, 0x637u64),
            NamedLayout::Layout7point0Front => (7i32, 0x6c7u64),
            NamedLayout::Layout7point1 => (8i32, 0x63fu64),
            NamedLayout::Layout7point1Wide => (8i32, 0x6cfu64),
            NamedLayout::Layout7point1WideBack => (8i32, 0xffu64),
            NamedLayout::Layout7point1TopBack => (8i32, 0x503fu64),
            NamedLayout::Octagonal => (8i32, 0x737u64),
            NamedLayout::Cube => (8i32, 0x2d033u64),
            NamedLayout::Hexadecagonal => (16i32, 0x1_8003_f737u64),
            NamedLayout::StereoDownmix => (2i32, 0x6000_0000u64),
            NamedLayout::Layout22point2 => (24i32, 0x1f8_0003_ffffu64),
        },
        channels_in(layout_parts(layout).1) == layout_parts(layout).0,
{
    assert({
    &&& AV_CH_LAYOUT_MONO == 0x4u64
    &&& AV_CH_LAYOUT_STEREO == 0x3u64
    &&& AV_CH_LAYOUT_2POINT1 == 0xbu64
    &&& AV_CH_LAYOUT_2_1 == 0x103u64
    &&& AV_CH_LAYOUT_SURROUND == 0x7u64
    &&& AV_CH_LAYOUT_3POINT1 == 0xfu64
    &&& AV_CH_LAYOUT_4POINT0 == 0x107u64
    &&& AV_CH_LAYOUT_4POINT1 == 0x10fu64
    &&& AV_CH_LAYOUT_2_2 == 0x603u64
    &&& AV_CH_LAYOUT_QUAD == 0x33u64
    &&& AV_CH_LAYOUT_5POINT0 == 0x607u64
    &&& AV_CH_LAYOUT_5POINT1 == 0x60fu64
    &&& AV_CH_LAYOUT_5POINT0_BACK == 0x37u64
    &&& AV_CH_LAYOUT_5POINT1_BACK == 0x3fu64
    &&& AV_CH_LAYOUT_6POINT0 == 0x707u64
    &&& AV_CH_LAYOUT_6POINT0_FRONT == 0x6c3u64
    &&& AV_CH_LAYOUT_HEXAGONAL == 0x137u64
    &&& AV_CH_LAYOUT_6POINT1 == 0x70fu64
    &&& AV_CH_LAYOUT_6POINT1_BACK == 0x13fu64
    &&& AV_CH_LAYOUT_6POINT1_FRONT == 0x6cbu64
    &&& AV_CH_LAYOUT_7POINT0 == 0x637u64
    &&& AV_CH_LAYOUT_7POINT0_FRONT == 0x6c7u64
    &&& AV_CH_LAYOUT_7POINT1 == 0x63fu64
    &&& AV_CH_LAYOUT_7POINT1_WIDE == 0x6cfu64
    &&& AV_CH_LAYOUT_7POINT1_WIDE_BACK == 0xffu64
    &&& AV_CH_LAYOUT_7POINT1_TOP_BACK == 0x503fu64
    &&& AV_CH_LAYOUT_OCTAGONAL == 0x737u64
    &&& AV_CH_LAYOUT_CUBE == 0x2d033u64
    &&& AV_CH_LAYOUT_HEXADECAGONAL == 0x1_8003_f737u64
    &&& AV_CH_LAYOUT_STEREO_DOWNMIX == 0x6000_0000u64
    &&& AV_CH_LAYOUT_22POINT2 == 0x1f8_0003_ffffu64
    }) by (bit_vector);
    assert({
    &&& channels_in(0x4u64) == 1
    &&& channels_in(0x3u64) == 2
    &&& channels_in(0xbu64) == 3
    &&& channels_in(0x103u64) == 3
    &&& channels_in(0x7u64) == 3
    &&& channels_in(0xfu64) == 4
    &&& channels_in(0x107u64) == 4
    &&& channels_in(0x10fu64) == 5
    &&& channels_in(0x603u64) == 4
    &&& channels_in(0x33u64) == 4
    &&& channels_in(0x607u64) == 5
    &&& channels_in(0x60fu64) == 6
    &&& channels_in(0x37u64) == 5
    &&& channels_in(0x3fu64) == 6
    &&& channels_in(0x707u64) == 6
    &&& channels_in(0x6c3u64) == 6
    &&& channels_in(0x137u64) == 6
    &&& channels_in(0x70fu64) == 7
    &&& channels_in(0x13fu64) == 7
    &&& channels_in(0x6cbu64) == 7
    &&& channels_in(0x637u64) == 7
    &&& channels_in(0x6c7u64) == 7
    &&& channels_in(0x63fu64) == 8
    &&& channels_in(0x6cfu64) == 8
    &&& channels_in(0xffu64) == 8
    &&& channels_in(0x503fu64) == 8
    &&& channels_in(0x737u64) == 8
    &&& channels_in(0x2d033u64) == 8
    &&& channels_in(0x1_8003_f737u64) == 16
    &&& channels_in(0x6000_0000u64) == 2
    &&& channels_in(0x1f8_0003_ffffu64) == 24
    }) by (bit_vector);
}

/// The sample rate that is selected is one of those supported and none is
/// higher; where none is above nothing it is nothing.
pub proof fn highest_rate_is_selected(rates: Seq<i32>, i: int)
    ensures
        0 <= i < rates.len() ==> rates[i] <= largest(rates),
        largest(rates) >= 0,
        largest(rates) > 0 ==> rates.contains(largest(rates)),
    decreases rates.len(),
{
    if rates.len() > 0 {
        let rest = rates.drop_last();
        highest_rate_is_selected(rest, i);
        assert(rates[rates.len() - 1] == rates.last());
        if largest(rest) > 0 {
            let k = choose|k: int| 0 <= k < rest.len() && rest[k] == largest(rest);
            assert(rates[k] == largest(rest));
        }
    }
}

/// Of the layouts with the most channels the first is selected.
pub proof fn first_of_the_widest(layouts: Seq<AVChannelLayout>, i: int)
    requires
        0 <= i < widest(layouts),
    ensures
        layouts[i].nb_channels < layouts[widest(layouts)].nb_channels,
    decreases layouts.len(),
{
    if layouts.len() > 1 {
        let rest = layouts.drop_last();
        let best = widest(rest);
        widest_is_widest(rest);
        assert(rest[i] == layouts[i] && rest[best] == layouts[best]);
        if widest(layouts) == best {
            first_of_the_widest(rest, i);
        } else {
            assert(layouts[layouts.len() - 1] == layouts.last());
        }
    }
}

} // verus!
