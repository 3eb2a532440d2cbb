//! Codecs, frames and packets: what is set on them before the media library
//! takes them, and what its answers come to.
//!
//! The calls into the media library are the caller's; each function takes what
//! the call came to.
use vstd::prelude::*;
use vstd::utf8;

use crate::signed;
use crate::text;

verus! {

/// An error of the graphics runtime.
#[derive(Debug)]
pub struct CudaError {
    /// The code.
    pub code: u32,
    /// What it means.
    pub message: String,
}

impl CudaError {
    /// An error.
    pub fn new(code: u32, message: String) -> (r: Self)
        ensures
            r == (CudaError { code, message }),
    {
        CudaError { code, message }
    }

    /// The error in words.
    pub fn words(&self) -> (r: String)
        ensures
            r@ == "CudaError("@ + text::decimal(self.code as nat) + "): "@ + self.message@,
    {
        let code = text::decimal_string(self.code as u64);
        let mut r = text::joined("CudaError(", code.as_str());
        r.append("): ");
        r.append(self.message.as_str());
        r
    }
}

/// An error of the media library.
#[derive(Debug)]
pub struct FfmpegError {
    /// The code.
    pub code: i32,
    /// What it means.
    pub message: String,
}

impl FfmpegError {
    /// An error.
    pub fn new(code: i32, message: String) -> (r: Self)
        ensures
            r == (FfmpegError { code, message }),
    {
        FfmpegError { code, message }
    }

    /// The error in words.
    pub fn words(&self) -> (r: String)
        ensures
            r@ == "FfmpegError("@ + signed::signed_decimal(self.code as int) + "): "@ + self.message@,
    {
        let code = signed::signed_string(self.code as i64);
        let mut r = text::joined("FfmpegError(", code.as_str());
        r.append("): ");
        r.append(self.message.as_str());
        r
    }
}

/// What a returned code comes to: `meaning` is what the media library says of
/// the code, where it says anything.
pub fn check_ret(error_code: i32, meaning: Option<String>) -> (r: Result<(), FfmpegError>)
    ensures
        match r {
            Ok(()) => error_code == 0,
            Err(e) => error_code != 0 && e.code == error_code && e.message@ == match meaning {
                Some(m) => m@,
                None => "Unknown error"@,
            },
        },
{
    if error_code != 0 {
        return match meaning {
            Some(m) => Err(FfmpegError::new(error_code, m)),
            None => Err(FfmpegError::new(error_code, "Unknown error".to_owned())),
        };
    }
    Ok(())
}

/// Where the first zero byte of a text stands, counted in bytes.
pub open spec fn zero_byte(data: Seq<char>) -> Option<int> {
    text::first_position(utf8::encode_utf8(data), 0u8)
}

/// What is said of a text with a zero byte at `position`.
pub open spec fn zero_byte_error(position: int) -> Seq<char> {
    "Failed to create CString: nul byte found in provided data at position: "@ + text::decimal(
        position as nat,
    )
}

/// The text as the media library takes it: its bytes, ended by a zero byte. A
/// text that holds a zero byte is refused.
pub fn to_c_str(data: &str) -> (r: Result<Vec<u8>, String>)
    ensures
        match r {
            Ok(bytes) => zero_byte(data@) is None && bytes@ == utf8::encode_utf8(data@).push(0),
            Err(e) => zero_byte(data@) is Some && e@ == zero_byte_error(zero_byte(data@)->0),
        },
{
    let bytes = data.as_bytes();
    if let Some(position) = text::find_byte(bytes, 0) {
        let at = text::decimal_string(position as u64);
        return Err(
            text::joined(
                "Failed to create CString: nul byte found in provided data at position: ",
                at.as_str(),
            ),
        );
    }
    let mut r: Vec<u8> = Vec::new();
    r.extend_from_slice(bytes);
    r.push(0);
    Ok(r)
}

/// A codec that the media library knows.
#[derive(Debug)]
pub struct Codec {
    /// Its name.
    pub name: String,
}

impl Codec {
    /// The codec `codec_name`, where the media library has found it. A name
    /// that holds a zero byte is refused before it is looked for; see
    /// [`to_c_str`].
    pub fn new(codec_name: &str, found: bool) -> (r: Result<Self, String>)
        ensures
            match r {
                Ok(c) => zero_byte(codec_name@) is None && found && c.name@ == codec_name@,
                Err(e) => match zero_byte(codec_name@) {
                    Some(position) => e@ == zero_byte_error(position),
                    None => !found && e@ == "codec '"@ + codec_name@ + "' is not found in ffmpeg"@,
                },
            },
    {
        if let Err(e) = to_c_str(codec_name) {
            return Err(e);
        }
        if !found {
            let mut e = text::joined("codec '", codec_name);
            e.append("' is not found in ffmpeg");
            return Err(e);
        }
        Ok(Codec { name: codec_name.to_owned() })
    }
}

/// A fraction.
#[derive(Clone, Copy, Debug, PartialEq, Eq, Structural)]
pub struct AVRational {
    /// Numerator.
    pub num: i32,
    /// Denominator.
    pub den: i32,
}

/// What is set on a codec before it is opened.
#[derive(Clone, Copy, Debug, PartialEq, Eq, Structural)]
pub struct CodecSettings {
    /// Width in pixels.
    pub width: i32,
    /// Height in pixels.
    pub height: i32,
    /// The unit of time.
    pub time_base: AVRational,
    /// Frames per second.
    pub framerate: AVRational,
    /// The most frames in a row that are predicted both ways.
    pub max_b_frames: i32,
    /// Pixel format.
    pub pix_fmt: i32,
    /// Bits per second.
    pub bit_rate: i64,
    /// Frames between two key frames.
    pub gop_size: i32,
    /// Sample format.
    pub sample_fmt: i32,
    /// Samples per second.
    pub sample_rate: i32,
    /// Flags.
    pub flags: i32,
    /// More flags.
    pub flags2: i32,
}

/// A codec that was opened.
#[derive(Debug)]
pub struct CodecContext {
    /// What was set on it.
    pub settings: CodecSettings,
}

/// A codec that is being set up.
#[derive(Debug)]
pub struct CodecContextBuilder {
    /// What is set on it so far.
    pub settings: CodecSettings,
}

impl CodecContextBuilder {
    /// Begins with what the media library sets on a new context, `None` if it
    /// could not make one.
    pub fn new(allocated: Option<CodecSettings>) -> (r: Result<Self, String>)
        ensures
            match r {
                Ok(b) => allocated == Some(b.settings),
                Err(e) => allocated is None && e@ == "could not allocate a codec context"@,
            },
    {
        match allocated {
            Some(settings) => Ok(CodecContextBuilder { settings }),
            None => Err("could not allocate a codec context".to_owned()),
        }
    }

    /// Opens the codec; `code` and `meaning` are what opening came to.
    pub fn open(self, code: i32, meaning: Option<String>) -> (r: Result<CodecContext, FfmpegError>)
        ensures
            match r {
                Ok(c) => code == 0 && c.settings == self.settings,
                Err(e) => code != 0 && e.code == code && e.message@ == match meaning {
                    Some(m) => m@,
                    None => "Unknown error"@,
                },
            },
    {
        match check_ret(code, meaning) {
            Ok(()) => Ok(CodecContext { settings: self.settings }),
            Err(e) => Err(e),
        }
    }

    /// Sets the width.
    pub fn set_width(&mut self, width: u32) -> (r: &mut Self)
        ensures
            r.settings == (CodecSettings { width: width as i32, ..old(self).settings }),
            *final(r) == *final(self),
    {
        #[verifier::truncate]
        let width: i32 = width as i32;
        self.settings.width = width;
        self
    }

    /// Sets the height.
    pub fn set_height(&mut self, height: u32) -> (r: &mut Self)
        ensures
            r.settings == (CodecSettings { height: height as i32, ..old(self).settings }),
            *final(r) == *final(self),
    {
        #[verifier::truncate]
        let height: i32 = height as i32;
        self.settings.height = height;
        self
    }

    /// Sets the frames per second, and the unit of time to one frame.
    pub fn set_framerate(&mut self, fps: u32) -> (r: &mut Self)
        ensures
            r.settings == (CodecSettings {
                time_base: AVRational { num: 1, den: fps as i32 },
                framerate: AVRational { num: fps as i32, den: 1 },
                ..old(self).settings
            }),
            *final(r) == *final(self),
    {
        #[verifier::truncate]
        let fps: i32 = fps as i32;
        self.settings.time_base = AVRational { num: 1, den: fps };
        self.settings.framerate = AVRational { num: fps, den: 1 };
        self
    }

    /// Sets the most frames in a row that are predicted both ways.
    pub fn set_max_b_frames(&mut self, max_b_frames: u32) -> (r: &mut Self)
        ensures
            r.settings == (CodecSettings { max_b_frames: max_b_frames as i32, ..old(self).settings }),
            *final(r) == *final(self),
    {
        #[verifier::truncate]
        let max_b_frames: i32 = max_b_frames as i32;
        self.settings.max_b_frames = max_b_frames;
        self
    }

    /// Sets the pixel format.
    pub fn set_pix_fmt(&mut self, pix_fmt: i32) -> (r: &mut Self)
        ensures
            r.settings == (CodecSettings { pix_fmt, ..old(self).settings }),
            *final(r) == *final(self),
    {
        self.settings.pix_fmt = pix_fmt;
        self
    }

    /// Sets the bits per second.
    pub fn set_bit_rate(&mut self, bit_rate: u64) -> (r: &mut Self)
        ensures
            r.settings == (CodecSettings { bit_rate: bit_rate as i64, ..old(self).settings }),
            *final(r) == *final(self),
    {
        #[verifier::truncate]
        let bit_rate: i64 = bit_rate as i64;
        self.settings.bit_rate = bit_rate;
        self
    }

    /// Sets the frames between two key frames.
    pub fn set_gop_size(&mut self, gop_size: u32) -> (r: &mut Self)
        ensures
            r.settings == (CodecSettings { gop_size: gop_size as i32, ..old(self).settings }),
            *final(r) == *final(self),
    {
        #[verifier::truncate]
        let gop_size: i32 = gop_size as i32;
        self.settings.gop_size = gop_size;
        self
    }

    /// Sets the sample format.
    pub fn set_sample_fmt(&mut self, sample_fmt: u32) -> (r: &mut Self)
        ensures
            r.settings == (CodecSettings { sample_fmt: sample_fmt as i32, ..old(self).settings }),
            *final(r) == *final(self),
    {
        #[verifier::truncate]
        let sample_fmt: i32 = sample_fmt as i32;
        self.settings.sample_fmt = sample_fmt;
        self
    }

    /// Sets the samples per second.
    pub fn set_sample_rate(&mut self, sample_rate: u32) -> (r: &mut Self)
        ensures
            r.settings == (CodecSettings { sample_rate: sample_rate as i32, ..old(self).settings }),
            *final(r) == *final(self),
    {
        #[verifier::truncate]
        let sample_rate: i32 = sample_rate as i32;
        self.settings.sample_rate = sample_rate;
        self
    }

    /// Sets the flags.
    pub fn set_flags(&mut self, flags: u32) -> (r: &mut Self)
        ensures
            r.settings == (CodecSettings { flags: flags as i32, ..old(self).settings }),
            *final(r) == *final(self),
    {
        #[verifier::truncate]
        let flags: i32 = flags as i32;
        self.settings.flags = flags;
        self
    }

    /// Sets more flags.
    pub fn set_flags2(&mut self, flags: u32) -> (r: &mut Self)
        ensures
            r.settings == (CodecSettings { flags2: flags as i32, ..old(self).settings }),
            *final(r) == *final(self),
    {
        #[verifier::truncate]
        let flags: i32 = flags as i32;
        self.settings.flags2 = flags;
        self
    }

}

/// What is set on a frame before its buffer is made.
#[derive(Clone, Copy, Debug, PartialEq, Eq, Structural)]
pub struct FrameSettings {
    /// Pixel or sample format.
    pub format: i32,
    /// Width in pixels.
    pub width: i32,
    /// Height in pixels.
    pub height: i32,
    /// Number of samples.
    pub nb_samples: i32,
}

/// A frame with its buffer.
#[derive(Debug)]
pub struct Frame {
    /// What was set on it.
    pub settings: FrameSettings,
}

/// A frame that is being set up.
#[derive(Debug)]
pub struct FrameBuilder {
    /// What is set on it so far.
    pub settings: FrameSettings,
}

impl FrameBuilder {
    /// Begins with what the media library sets on a new frame, `None` if it
    /// could not make one.
    pub fn new(allocated: Option<FrameSettings>) -> (r: Result<Self, String>)
        ensures
            match r {
                Ok(b) => allocated == Some(b.settings),
                Err(e) => allocated is None && e@ == "could not allocate a frame"@,
            },
    {
        match allocated {
            Some(settings) => Ok(FrameBuilder { settings }),
            None => Err("could not allocate a frame".to_owned()),
        }
    }

    /// Makes the buffer; `code` and `meaning` are what that came to.
    pub fn allocate(self, code: i32, meaning: Option<String>) -> (r: Result<Frame, FfmpegError>)
        ensures
            match r {
                Ok(f) => code == 0 && f.settings == self.settings,
                Err(e) => code != 0 && e.code == code && e.message@ == match meaning {
                    Some(m) => m@,
                    None => "Unknown error"@,
                },
            },
    {
        match check_ret(code, meaning) {
            Ok(()) => Ok(Frame { settings: self.settings }),
            Err(e) => Err(e),
        }
    }

    /// Sets the format.
    pub fn set_format(&mut self, format: i32) -> (r: &mut Self)
        ensures
            r.settings == (FrameSettings { format, ..old(self).settings }),
            *final(r) == *final(self),
    {
        self.settings.format = format;
        self
    }

    /// Sets the width.
    pub fn set_width(&mut self, width: u32) -> (r: &mut Self)
        ensures
            r.settings == (FrameSettings { width: width as i32, ..old(self).settings }),
            *final(r) == *final(self),
    {
        #[verifier::truncate]
        let width: i32 = width as i32;
        self.settings.width = width;
        self
    }

    /// Sets the height.
    pub fn set_height(&mut self, height: u32) -> (r: &mut Self)
        ensures
            r.settings == (FrameSettings { height: height as i32, ..old(self).settings }),
            *final(r) == *final(self),
    {
        #[verifier::truncate]
        let height: i32 = height as i32;
        self.settings.height = height;
        self
    }

    /// Sets the number of samples.
    pub fn set_nb_samples(&mut self, nb_samples: u32) -> (r: &mut Self)
        ensures
            r.settings == (FrameSettings { nb_samples: nb_samples as i32, ..old(self).settings }),
            *final(r) == *final(self),
    {
        #[verifier::truncate]
        let nb_samples: i32 = nb_samples as i32;
        self.settings.nb_samples = nb_samples;
        self
    }

}

/// A packet.
#[derive(Debug)]
pub struct Packet {
    /// Its data.
    pub data: Vec<u8>,
}

impl Packet {
    /// A packet without data, where the media library could make one.
    pub fn new(allocated: bool) -> (r: Result<Self, String>)
        ensures
            match r {
                Ok(p) => allocated && p.data@.len() == 0,
                Err(e) => !allocated && e@ == "could not allocate packet"@,
            },
    {
        if !allocated {
            return Err("could not allocate packet".to_owned());
        }
        Ok(Packet { data: Vec::new() })
    }
}

/// A scaler from one size and format to another.
#[derive(Clone, Copy, Debug, PartialEq, Eq, Structural)]
pub struct SwsContext {
    /// Width of what is scaled.
    pub source_width: i32,
    /// Height of what is scaled.
    pub source_height: i32,
    /// Format of what is scaled.
    pub source_format: i32,
    /// Width to which it is scaled.
    pub dest_width: i32,
    /// Height to which it is scaled.
    pub dest_height: i32,
    /// Format to which it is scaled.
    pub dest_format: i32,
    /// How it is scaled.
    pub flags: i32,
}

impl SwsContext {
    /// A scaler; the sizes are width and height.
    pub fn new(
        source_dimensions: (u32, u32),
        source_format: i32,
        dest_dimensions: (u32, u32),
        dest_format: i32,
        flags: i32,
    ) -> (r: Self)
        ensures
            r == (SwsContext {
                source_width: source_dimensions.0 as i32,
                source_height: source_dimensions.1 as i32,
                source_format,
                dest_width: dest_dimensions.0 as i32,
                dest_height: dest_dimensions.1 as i32,
                dest_format,
                flags,
            }),
    {
        #[verifier::truncate]
        let source_width: i32 = source_dimensions.0 as i32;
        #[verifier::truncate]
        let source_height: i32 = source_dimensions.1 as i32;
        #[verifier::truncate]
        let dest_width: i32 = dest_dimensions.0 as i32;
        #[verifier::truncate]
        let dest_height: i32 = dest_dimensions.1 as i32;
        SwsContext {
            source_width,
            source_height,
            source_format,
            dest_width,
            dest_height,
            dest_format,
            flags,
        }
    }
}

/// A text is handed on as it is exactly if it holds no zero byte; the first one
/// that it holds is told.
pub proof fn zero_bytes_are_found(data: Seq<char>)
    ensures
        zero_byte(data) is None <==> !utf8::encode_utf8(data).contains(0u8),
        zero_byte(data) matches Some(i) ==> {
            &&& 0 <= i < utf8::encode_utf8(data).len()
            &&& utf8::encode_utf8(data)[i] == 0
            &&& forall|j: int| 0 <= j < i ==> #[trigger] utf8::encode_utf8(data)[j] != 0
        },
{
    text::first_position_is_first(utf8::encode_utf8(data), 0u8);
}

/// A text that is refused is told where its first zero byte stands.
pub proof fn refusals_say_where(position: int)
    ensures
        zero_byte_error(position)
            == "Failed to create CString: nul byte found in provided data at position: "@ + text::decimal(
            position as nat,
        ),
{
}

} // verus!
