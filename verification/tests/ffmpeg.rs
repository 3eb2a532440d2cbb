use moonshine::ffmpeg::codec::{
    check_ret, to_c_str, AVRational, Codec, CodecContextBuilder, CodecSettings, CudaError, FfmpegError,
    FrameBuilder, FrameSettings, Packet, SwsContext,
};
use moonshine::ffmpeg::numbers::{
    av_channel_layout_mask, av_error, av_pix_fmt_ne, fferrtag, mktag, named_layout, received,
    select_channel_layout, select_sample_rate, AVChannelLayout, NamedLayout, Received,
    AVERROR_BSF_NOT_FOUND, AVERROR_BUFFER_TOO_SMALL, AVERROR_BUG, AVERROR_BUG2,
    AVERROR_DECODER_NOT_FOUND, AVERROR_DEMUXER_NOT_FOUND, AVERROR_ENCODER_NOT_FOUND,
    AVERROR_EOF, AVERROR_EXIT, AVERROR_EXTERNAL, AVERROR_FILTER_NOT_FOUND,
    AVERROR_HTTP_BAD_REQUEST, AVERROR_HTTP_FORBIDDEN, AVERROR_HTTP_NOT_FOUND,
    AVERROR_HTTP_OTHER_4XX, AVERROR_HTTP_SERVER_ERROR, AVERROR_HTTP_UNAUTHORIZED,
    AVERROR_INVALIDDATA, AVERROR_MUXER_NOT_FOUND, AVERROR_OPTION_NOT_FOUND,
    AVERROR_PATCHWELCOME, AVERROR_PROTOCOL_NOT_FOUND, AVERROR_STREAM_NOT_FOUND, AVERROR_UNKNOWN,
};

fn blank() -> CodecSettings {
    let none = AVRational { num: 0, den: 1 };
    CodecSettings {
        width: 0,
        height: 0,
        time_base: none,
        framerate: none,
        max_b_frames: 0,
        pix_fmt: -1,
        bit_rate: 0,
        gop_size: 12,
        sample_fmt: -1,
        sample_rate: 0,
        flags: 0,
        flags2: 0,
    }
}

#[test]
fn error_codes_are_negated_tags() {
    let codes = [
        (AVERROR_BSF_NOT_FOUND, fferrtag('\u{f8}', 'B', 'S', 'F')),
        (AVERROR_BUG, fferrtag('B', 'U', 'G', '!')),
        (AVERROR_BUFFER_TOO_SMALL, fferrtag('B', 'U', 'F', 'S')),
        (AVERROR_DECODER_NOT_FOUND, fferrtag('\u{f8}', 'D', 'E', 'C')),
        (AVERROR_DEMUXER_NOT_FOUND, fferrtag('\u{f8}', 'D', 'E', 'M')),
        (AVERROR_ENCODER_NOT_FOUND, fferrtag('\u{f8}', 'E', 'N', 'C')),
        (AVERROR_EOF, fferrtag('E', 'O', 'F', ' ')),
        (AVERROR_EXIT, fferrtag('E', 'X', 'I', 'T')),
        (AVERROR_EXTERNAL, fferrtag('E', 'X', 'T', ' ')),
        (AVERROR_FILTER_NOT_FOUND, fferrtag('\u{f8}', 'F', 'I', 'L')),
        (AVERROR_INVALIDDATA, fferrtag('I', 'N', 'D', 'A')),
        (AVERROR_MUXER_NOT_FOUND, fferrtag('\u{f8}', 'M', 'U', 'X')),
        (AVERROR_OPTION_NOT_FOUND, fferrtag('\u{f8}', 'O', 'P', 'T')),
        (AVERROR_PATCHWELCOME, fferrtag('P', 'A', 'W', 'E')),
        (AVERROR_PROTOCOL_NOT_FOUND, fferrtag('\u{f8}', 'P', 'R', 'O')),
        (AVERROR_STREAM_NOT_FOUND, fferrtag('\u{f8}', 'S', 'T', 'R')),
        (AVERROR_BUG2, fferrtag('B', 'U', 'G', ' ')),
        (AVERROR_UNKNOWN, fferrtag('U', 'N', 'K', 'N')),
        (AVERROR_HTTP_BAD_REQUEST, fferrtag('\u{f8}', '4', '0', '0')),
        (AVERROR_HTTP_UNAUTHORIZED, fferrtag('\u{f8}', '4', '0', '1')),
        (AVERROR_HTTP_FORBIDDEN, fferrtag('\u{f8}', '4', '0', '3')),
        (AVERROR_HTTP_NOT_FOUND, fferrtag('\u{f8}', '4', '0', '4')),
        (AVERROR_HTTP_OTHER_4XX, fferrtag('\u{f8}', '4', 'X', 'X')),
        (AVERROR_HTTP_SERVER_ERROR, fferrtag('\u{f8}', '5', 'X', 'X')),
    ];
    for (code, tag) in codes {
        assert_eq!(code, tag);
    }
}

#[test]
fn tags_hold_the_first_character_in_the_lowest_byte() {
    assert_eq!(mktag('a', 'b', 'c', 'd'), 0x6463_6261);
    assert_eq!(av_error(11), -11);
    assert_eq!(av_pix_fmt_ne(1, 2), if cfg_big() { 1 } else { 2 });
}

fn cfg_big() -> bool {
    1_u16.to_be() == 1
}

#[test]
fn layouts_have_a_bit_for_each_channel() {
    let layouts = [
        (NamedLayout::Mono, 1),
        (NamedLayout::Stereo, 2),
        (NamedLayout::Layout2point1, 3),
        (NamedLayout::Layout2By1, 3),
        (NamedLayout::Surround, 3),
        (NamedLayout::Layout3point1, 4),
        (NamedLayout::Layout4point0, 4),
        (NamedLayout::Layout4point1, 5),
        (NamedLayout::Layout2By2, 4),
        (NamedLayout::Quad, 4),
        (NamedLayout::Layout5point0, 5),
        (NamedLayout::Layout5point1, 6),
        (NamedLayout::Layout5point0Back, 5),
        (NamedLayout::Layout5point1Back, 6),
        (NamedLayout::Layout6point0, 6),
        (NamedLayout::Layout6point0Front, 6),
        (NamedLayout::Hexagonal, 6),
        (NamedLayout::Layout6point1, 7),
        (NamedLayout::Layout6point1Back, 7),
        (NamedLayout::Layout6point1Front, 7),
        (NamedLayout::Layout7point0, 7),
        (NamedLayout::Layout7point0Front, 7),
        (NamedLayout::Layout7point1, 8),
        (NamedLayout::Layout7point1Wide, 8),
        (NamedLayout::Layout7point1WideBack, 8),
        (NamedLayout::Layout7point1TopBack, 8),
        (NamedLayout::Octagonal, 8),
        (NamedLayout::Cube, 8),
        (NamedLayout::Hexadecagonal, 16),
        (NamedLayout::StereoDownmix, 2),
        (NamedLayout::Layout22point2, 24),
    ];
    for (name, channels) in layouts {
        let layout = named_layout(name);
        assert_eq!(layout.nb_channels, channels);
        assert_eq!(layout.mask.count_ones() as i32, channels);
        assert_eq!(layout.order, 1);
        assert_eq!(layout, av_channel_layout_mask(channels, layout.mask));
    }
    assert_eq!(named_layout(NamedLayout::Stereo).mask, 0x3);
    assert_eq!(named_layout(NamedLayout::Layout5point1).mask, 0x60f);
    assert_eq!(named_layout(NamedLayout::Layout7point1).mask, 0x63f);
}

#[test]
fn packets_are_asked_for_until_there_are_none() {
    assert_eq!(received(0), Received::Packet);
    assert_eq!(received(av_error(11)), Received::Done);
    assert_eq!(received(AVERROR_EOF), Received::Done);
    assert_eq!(received(AVERROR_INVALIDDATA), Received::Failed);
    assert_eq!(received(1), Received::Failed);
}

#[test]
fn the_highest_sample_rate_is_taken() {
    assert_eq!(select_sample_rate(&[44_100, 48_000, 32_000]), 48_000);
    assert_eq!(select_sample_rate(&[]), 0);
}

#[test]
fn the_first_layout_with_the_most_channels_is_taken() {
    let layout = |nb, mask| AVChannelLayout { order: 1, nb_channels: nb, mask };
    let layouts = [layout(1, 4), layout(6, 1), layout(6, 2), layout(2, 3)];
    assert_eq!(select_channel_layout(Some(&layouts)), layout(6, 1));
    assert_eq!(select_channel_layout(None), layout(2, 3));
}

#[test]
fn codes_other_than_zero_are_errors() {
    assert!(check_ret(0, None).is_ok());
    let error = check_ret(-11, Some("Resource temporarily unavailable".to_owned())).unwrap_err();
    assert_eq!(error.code, -11);
    assert_eq!(error.words(), "FfmpegError(-11): Resource temporarily unavailable");
    assert_eq!(check_ret(1, None).unwrap_err().message, "Unknown error");
    assert_eq!(FfmpegError::new(5, "x".to_owned()).words(), "FfmpegError(5): x");
    assert_eq!(CudaError::new(2, "out of memory".to_owned()).words(), "CudaError(2): out of memory");
}

#[test]
fn texts_are_ended_by_a_zero_byte() {
    assert_eq!(to_c_str("rtp").unwrap(), b"rtp\0");
    assert_eq!(to_c_str("").unwrap(), b"\0");
    assert_eq!(to_c_str("é").unwrap(), [0xc3, 0xa9, 0]);
    let zero_byte = "Failed to create CString: nul byte found in provided data at position: ";
    assert_eq!(to_c_str("é\0a\0").unwrap_err(), format!("{zero_byte}2"));
    assert_eq!(to_c_str("\0").unwrap_err(), format!("{zero_byte}0"));
}

#[test]
fn codecs_are_found_or_not() {
    assert_eq!(Codec::new("libx264", true).unwrap().name, "libx264");
    assert_eq!(Codec::new("libx9", false).unwrap_err(), "codec 'libx9' is not found in ffmpeg");
    let zero_byte = "Failed to create CString: nul byte found in provided data at position: ";
    assert_eq!(Codec::new("lib\0x264", true).unwrap_err(), format!("{zero_byte}3"));
    assert_eq!(Codec::new("lib\0x264", false).unwrap_err(), format!("{zero_byte}3"));
    assert!(Packet::new(true).unwrap().data.is_empty());
    assert_eq!(Packet::new(false).unwrap_err(), "could not allocate packet");
}

#[test]
fn a_codec_is_opened_as_it_was_set_up() {
    let mut builder = CodecContextBuilder::new(Some(blank())).unwrap();
    builder
        .set_width(1920)
        .set_height(1080)
        .set_framerate(60)
        .set_max_b_frames(2)
        .set_pix_fmt(23)
        .set_bit_rate(8_000_000)
        .set_gop_size(30);
    builder.set_sample_fmt(8).set_sample_rate(48_000).set_flags(u32::MAX).set_flags2(4);
    let context = builder.open(0, None).unwrap();
    assert_eq!(
        context.settings,
        CodecSettings {
            width: 1920,
            height: 1080,
            time_base: AVRational { num: 1, den: 60 },
            framerate: AVRational { num: 60, den: 1 },
            max_b_frames: 2,
            pix_fmt: 23,
            bit_rate: 8_000_000,
            gop_size: 30,
            sample_fmt: 8,
            sample_rate: 48_000,
            flags: -1,
            flags2: 4,
        }
    );
    assert_eq!(CodecContextBuilder::new(None).unwrap_err(), "could not allocate a codec context");
    let builder = CodecContextBuilder::new(Some(blank())).unwrap();
    assert_eq!(builder.open(-22, None).unwrap_err().code, -22);
}

#[test]
fn a_frame_is_made_as_it_was_set_up() {
    let start = FrameSettings { format: -1, width: 0, height: 0, nb_samples: 0 };
    let mut builder = FrameBuilder::new(Some(start)).unwrap();
    builder.set_format(23).set_width(64).set_height(32).set_nb_samples(960);
    let frame = builder.allocate(0, None).unwrap();
    assert_eq!(frame.settings, FrameSettings { format: 23, width: 64, height: 32, nb_samples: 960 });
    assert_eq!(FrameBuilder::new(None).unwrap_err(), "could not allocate a frame");
    let builder = FrameBuilder::new(Some(start)).unwrap();
    assert_eq!(builder.allocate(-12, Some("no memory".to_owned())).unwrap_err().message, "no memory");
}

#[test]
fn a_scaler_holds_both_sizes() {
    let scaler = SwsContext::new((1920, 1080), 2, (1280, 720), 23, 4);
    assert_eq!((scaler.source_width, scaler.source_height, scaler.source_format), (1920, 1080, 2));
    assert_eq!((scaler.dest_width, scaler.dest_height, scaler.dest_format), (1280, 720, 23));
    assert_eq!(scaler.flags, 4);
}
