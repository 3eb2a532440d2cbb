//! What a video stream is asked to be, and what is counted of it.
use vstd::prelude::*;

verus! {

/// Configuration of the video stream.
#[derive(Clone, Copy, Debug, PartialEq, Eq, Structural)]
pub struct VideoStreamConfig {
    /// Port on which video is sent.
    pub port: u16,
    /// Percentage of data packets that are added as parity packets.
    pub fec_percentage: u8,
    /// Encrypt the video stream (AES-128-GCM).
    pub encrypt: bool,
    /// Warn when one frame takes longer than its budget.
    pub log_frame_spikes: bool,
}

impl Default for VideoStreamConfig {
    fn default() -> (r: Self)
        ensures
            r == (VideoStreamConfig {
                port: 47998,
                fec_percentage: 20,
                encrypt: false,
                log_frame_spikes: false,
            }),
    {
        VideoStreamConfig { port: 47998, fec_percentage: 20, encrypt: false, log_frame_spikes: false }
    }
}

/// What one frame took, times in nanoseconds.
#[derive(Clone, Copy, Debug, PartialEq, Eq, Structural)]
pub struct FrameStats {
    /// Waiting in the compositor's output channel.
    pub channel_wait: u128,
    /// Importing the buffer.
    pub import: u128,
    /// Colour conversion.
    pub convert: u128,
    /// Handing the frame to the encoder.
    pub submit: u128,
    /// Waiting for the packet consumer.
    pub consumer_queue: u128,
    /// Waiting for the encoder.
    pub encode_wait: u128,
    /// Packetizing.
    pub packetize: u128,
    /// Sending the packets on.
    pub send: u128,
    /// From end to end.
    pub total: u128,
    /// Bytes encoded.
    pub encoded_bytes: usize,
    /// It is a key frame.
    pub is_key_frame: bool,
}

/// The codec of the video stream.
#[derive(Debug, Clone, Copy, PartialEq, Eq, Structural)]
pub enum VideoFormat {
    /// H.264.
    H264,
    /// HEVC.
    Hevc,
    /// AV1.
    Av1,
}

impl Default for VideoFormat {
    fn default() -> (r: Self)
        ensures
            r == VideoFormat::H264,
    {
        VideoFormat::H264
    }
}

impl TryFrom<u32> for VideoFormat {
    type Error = ();

    fn try_from(value: u32) -> (r: Result<Self, ()>) {
        match value {
            0 => Ok(VideoFormat::H264),
            1 => Ok(VideoFormat::Hevc),
            2 => Ok(VideoFormat::Av1),
            _ => Err(()),
        }
    }
}

impl vstd::std_specs::convert::TryFromSpecImpl<u32> for VideoFormat {
    open spec fn obeys_try_from_spec() -> bool {
        true
    }

    open spec fn try_from_spec(value: u32) -> Result<Self, ()> {
        match value {
            0 => Ok(VideoFormat::H264),
            1 => Ok(VideoFormat::Hevc),
            2 => Ok(VideoFormat::Av1),
            _ => Err(()),
        }
    }
}

/// The dynamic range of the video stream.
#[derive(Debug, Clone, Copy, PartialEq, Eq, Structural)]
pub enum VideoDynamicRange {
    /// Standard.
    Sdr,
    /// High.
    Hdr,
}

impl Default for VideoDynamicRange {
    fn default() -> (r: Self)
        ensures
            r == VideoDynamicRange::Sdr,
    {
        VideoDynamicRange::Sdr
    }
}

impl TryFrom<u32> for VideoDynamicRange {
    type Error = ();

    fn try_from(value: u32) -> (r: Result<Self, ()>) {
        match value {
            0 => Ok(VideoDynamicRange::Sdr),
            1 => Ok(VideoDynamicRange::Hdr),
            _ => Err(()),
        }
    }
}

impl vstd::std_specs::convert::TryFromSpecImpl<u32> for VideoDynamicRange {
    open spec fn obeys_try_from_spec() -> bool {
        true
    }

    open spec fn try_from_spec(value: u32) -> Result<Self, ()> {
        match value {
            0 => Ok(VideoDynamicRange::Sdr),
            1 => Ok(VideoDynamicRange::Hdr),
            _ => Err(()),
        }
    }
}

/// The chroma sampling of the video stream.
#[derive(Debug, Clone, Copy, PartialEq, Eq, Structural)]
pub enum VideoChromaSampling {
    /// 4:2:0.
    Yuv420,
    /// 4:4:4.
    Yuv444,
}

impl Default for VideoChromaSampling {
    fn default() -> (r: Self)
        ensures
            r == VideoChromaSampling::Yuv420,
    {
        VideoChromaSampling::Yuv420
    }
}

impl TryFrom<u32> for VideoChromaSampling {
    type Error = ();

    fn try_from(value: u32) -> (r: Result<Self, ()>) {
        match value {
            0 => Ok(VideoChromaSampling::Yuv420),
            1 => Ok(VideoChromaSampling::Yuv444),
            _ => Err(()),
        }
    }
}

impl vstd::std_specs::convert::TryFromSpecImpl<u32> for VideoChromaSampling {
    open spec fn obeys_try_from_spec() -> bool {
        true
    }

    open spec fn try_from_spec(value: u32) -> Result<Self, ()> {
        match value {
            0 => Ok(VideoChromaSampling::Yuv420),
            1 => Ok(VideoChromaSampling::Yuv444),
            _ => Err(()),
        }
    }
}

/// What the client asked the video stream to be.
#[derive(Clone, Copy, Debug, PartialEq, Eq, Structural)]
pub struct VideoStreamContext {
    /// Width in pixels.
    pub width: u32,
    /// Height in pixels.
    pub height: u32,
    /// Frames per second.
    pub fps: u32,
    /// Bytes of a packet.
    pub packet_size: usize,
    /// Target bits per second.
    pub bitrate: usize,
    /// The least parity packets of a frame.
    pub minimum_fec_packets: u32,
    /// Mark packets for quality of service.
    pub qos: bool,
    /// The codec.
    pub video_format: VideoFormat,
    /// The dynamic range.
    pub dynamic_range: VideoDynamicRange,
    /// The chroma sampling.
    pub chroma_sampling_type: VideoChromaSampling,
    /// The most reference frames of the encoder.
    pub max_reference_frames: u32,
    /// Full-range rather than limited-range luma.
    pub full_range: bool,
    /// The client has enabled encryption.
    pub encrypt_video: bool,
}

impl Default for VideoStreamContext {
    fn default() -> (r: Self)
        ensures
            r == (VideoStreamContext {
                width: 0,
                height: 0,
                fps: 0,
                packet_size: 0,
                bitrate: 0,
                minimum_fec_packets: 0,
                qos: false,
                video_format: VideoFormat::H264,
                dynamic_range: VideoDynamicRange::Sdr,
                chroma_sampling_type: VideoChromaSampling::Yuv420,
                max_reference_frames: 0,
                full_range: false,
                encrypt_video: false,
            }),
    {
        VideoStreamContext {
            width: 0,
            height: 0,
            fps: 0,
            packet_size: 0,
            bitrate: 0,
            minimum_fec_packets: 0,
            qos: false,
            video_format: VideoFormat::H264,
            dynamic_range: VideoDynamicRange::Sdr,
            chroma_sampling_type: VideoChromaSampling::Yuv420,
            max_reference_frames: 0,
            full_range: false,
            encrypt_video: false,
        }
    }
}

/// Codecs, dynamic ranges and chroma samplings are known by the numbers of the
/// protocol, and by no others.
pub proof fn settings_have_their_numbers(value: u32)
    ensures
        ({
            let r = <VideoFormat as vstd::std_specs::convert::TryFromSpec<u32>>::try_from_spec(value);
            &&& r == Ok::<VideoFormat, ()>(VideoFormat::H264) <==> value == 0
            &&& r == Ok::<VideoFormat, ()>(VideoFormat::Hevc) <==> value == 1
            &&& r == Ok::<VideoFormat, ()>(VideoFormat::Av1) <==> value == 2
            &&& r is Err <==> value > 2
        }),
        ({
            let r = <VideoDynamicRange as vstd::std_specs::convert::TryFromSpec<u32>>::try_from_spec(
                value,
            );
            &&& r == Ok::<VideoDynamicRange, ()>(VideoDynamicRange::Sdr) <==> value == 0
            &&& r == Ok::<VideoDynamicRange, ()>(VideoDynamicRange::Hdr) <==> value == 1
            &&& r is Err <==> value > 1
        }),
        ({
            let r = <VideoChromaSampling as vstd::std_specs::convert::TryFromSpec<u32>>::try_from_spec(
                value,
            );
            &&& r == Ok::<VideoChromaSampling, ()>(VideoChromaSampling::Yuv420) <==> value == 0
            &&& r == Ok::<VideoChromaSampling, ()>(VideoChromaSampling::Yuv444) <==> value == 1
            &&& r is Err <==> value > 1
        }),
{
}

} // verus!
