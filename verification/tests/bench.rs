use moonshine::bench::matrix::{
    duration_shown, matrix_duration, parse_codec, parse_resolution, Matrix, MatrixStatus, RUNS,
};
use moonshine::bench::session::{Collection, StatsEvent, Step, INTERVAL, SECOND};
use moonshine::bench::stats::{percentiles, sort_samples, LatencyDistribution, StatsAccumulator};
use moonshine::video::settings::{FrameStats, VideoFormat};

fn frame(total_us: u128) -> FrameStats {
    FrameStats {
        channel_wait: 1_000,
        import: 2_999,
        convert: 3_000,
        submit: 4_000,
        consumer_queue: 5_000,
        encode_wait: 6_000,
        packetize: 7_000,
        send: 8_000,
        total: total_us * 1_000,
        encoded_bytes: 100,
        is_key_frame: total_us % 2 == 0,
    }
}

const NOTHING: Step = Step { counted: false, interval: None, warn: false, stop: false };

#[test]
fn samples_are_put_in_order() {
    assert_eq!(sort_samples(&[5, 3, 5, 1, 4, 1]), vec![1, 1, 3, 4, 5, 5]);
    assert!(sort_samples(&[]).is_empty());
    let many: Vec<u64> = (0..1000).map(|i| i * 7919 % 1009).collect();
    let mut expected = many.clone();
    expected.sort();
    assert_eq!(sort_samples(&many), expected);
}

#[test]
fn percentiles_are_the_first_to_reach_their_share() {
    assert_eq!(percentiles(&[]), (0, 0, 0));
    assert_eq!(percentiles(&[7]), (7, 7, 7));
    assert_eq!(percentiles(&[2, 1]), (1, 2, 2));
    let hundred: Vec<u64> = (1..=100).rev().collect();
    assert_eq!(percentiles(&hundred), (50, 95, 99));
    let twenty: Vec<u64> = (1..=20).collect();
    assert_eq!(percentiles(&twenty), (10, 19, 20));
}

#[test]
fn percentile_ranks_agree_with_their_shares_as_floating_point_numbers() {
    for len in 1..2000_usize {
        let samples: Vec<u64> = (0..len as u64).collect();
        let rank = |p: f64| {
            ((len as f64 * p).ceil() as usize).saturating_sub(1).min(len - 1) as u64
        };
        assert_eq!(percentiles(&samples), (rank(0.50), rank(0.95), rank(0.99)));
    }
}

#[test]
fn distributions_hold_their_extremes() {
    let d = LatencyDistribution::new(60, &[30, 10, 20]);
    assert_eq!((d.total_us, d.count, d.min_us, d.max_us, d.p50_us), (60, 3, 10, 30, 20));
    let none = LatencyDistribution::new(60, &[]);
    assert_eq!((none.total_us, none.count, none.max_us, none.p99_us), (0, 0, 0, 0));
}

#[test]
fn frames_add_up() {
    let mut stats = StatsAccumulator::new(10);
    assert!(stats.summary().is_none());
    stats.add(&frame(30), 50);
    stats.add(&frame(11), 60);
    let s = stats.summary().unwrap();
    assert_eq!((s.count, s.start, s.encoded_bytes, s.key_frames), (2, 50, 200, 1));
    assert_eq!((s.total.total_us, s.total.min_us, s.total.max_us), (41, 11, 30));
    assert_eq!((s.submit.total_us, s.encode_wait.total_us), (8, 12));
    assert_eq!((s.channel_wait_us, s.import_us, s.convert_us), (2, 4, 6));
    assert_eq!((s.consumer_queue_us, s.packetize_us, s.send_us), (10, 14, 16));
}

#[test]
fn warmup_frames_do_not_count() {
    let mut session = Collection::begin(0, 2, 10);
    assert_eq!(session.take(&StatsEvent::Frame(frame(5)), 2 * SECOND - 1), NOTHING);
    assert!(session.summary().is_none());
    let step = session.take(&StatsEvent::Frame(frame(5)), 2 * SECOND);
    assert_eq!(step, Step { counted: true, ..NOTHING });
    assert_eq!(session.summary().unwrap().count, 1);
}

#[test]
fn intervals_are_shown_and_begin_anew() {
    let mut session = Collection::begin(0, 0, 0);
    session.take(&StatsEvent::Frame(frame(4)), 1);
    assert!(session.take(&StatsEvent::Frame(frame(6)), INTERVAL).interval.is_none());
    let shown = session.take(&StatsEvent::Frame(frame(8)), INTERVAL + 1).interval.unwrap();
    assert_eq!((shown.count, shown.total.total_us), (3, 18));
    session.take(&StatsEvent::Frame(frame(10)), INTERVAL + 2);
    assert_eq!(session.accum.count, 1);
    assert_eq!(session.summary().unwrap().count, 4);
}

#[test]
fn sessions_end_at_their_time() {
    let mut session = Collection::begin(5, 0, 3);
    assert_eq!(session.remaining(5), Some(3 * SECOND));
    assert_eq!(session.remaining(9 * SECOND), Some(0));
    assert!(!session.take(&StatsEvent::Frame(frame(1)), 3 * SECOND).stop);
    assert!(session.take(&StatsEvent::Frame(frame(1)), 3 * SECOND + 5).stop);
    assert!(session.take(&StatsEvent::TimeOver, 3 * SECOND + 5).stop);
    assert!(!session.take(&StatsEvent::TimeOver, 3 * SECOND + 4).stop);
    assert_eq!(session.take(&StatsEvent::Lagged, 4 * SECOND), NOTHING);
    assert!(session.take(&StatsEvent::Closed, 4 * SECOND).stop);
    assert!(!session.interrupted);
    assert!(session.take(&StatsEvent::CtrlC, 4 * SECOND).stop);
    assert!(session.interrupted);
    assert_eq!(Collection::begin(5, 0, 0).remaining(9), None);
}

#[test]
fn missing_frames_are_warned_of_once() {
    let mut session = Collection::begin(0, 2, 0);
    assert_eq!(session.take(&StatsEvent::Idle, SECOND), NOTHING);
    assert_eq!(session.take(&StatsEvent::Idle, 3 * SECOND), Step { warn: true, ..NOTHING });
    assert_eq!(session.take(&StatsEvent::Idle, 6 * SECOND), NOTHING);
    let mut session = Collection::begin(0, 0, 0);
    session.take(&StatsEvent::Frame(frame(1)), 1);
    assert_eq!(session.take(&StatsEvent::Idle, 6 * SECOND), NOTHING);
}

#[test]
fn resolutions_are_two_numbers() {
    assert_eq!(parse_resolution("1920x1080"), Ok((1920, 1080)));
    assert_eq!(parse_resolution("+1x007"), Ok((1, 7)));
    let format = "Invalid resolution format, expected WxH (e.g. 1920x1080)";
    assert_eq!(parse_resolution("1920"), Err(format.to_owned()));
    assert_eq!(parse_resolution("1x2x3"), Err(format.to_owned()));
    assert_eq!(
        parse_resolution("x1080"),
        Err("Invalid width: cannot parse integer from empty string".to_owned())
    );
    assert_eq!(
        parse_resolution("1920xa"),
        Err("Invalid height: invalid digit found in string".to_owned())
    );
    assert_eq!(
        parse_resolution("4294967296x1"),
        Err("Invalid width: number too large to fit in target type".to_owned())
    );
}

#[test]
fn codecs_and_durations_have_names() {
    assert_eq!(parse_codec("h264"), VideoFormat::H264);
    assert_eq!(parse_codec("hevc"), VideoFormat::Hevc);
    assert_eq!(parse_codec("av1"), VideoFormat::Av1);
    assert_eq!(duration_shown(0), "infinite");
    assert_eq!(duration_shown(30), "30");
    assert_eq!(matrix_duration(0), 8);
    assert_eq!(matrix_duration(3), 3);
}

#[test]
fn a_matrix_makes_every_run_once() {
    let mut matrix = Matrix::new();
    let mut runs = Vec::new();
    while let Some(run) = matrix.next_run() {
        assert!(parse_resolution(&run.resolution).is_ok());
        runs.push((run.resolution_label, run.target_fps, run.codec));
        matrix.ended(MatrixStatus::Finished(None));
    }
    assert_eq!(runs.len(), RUNS);
    assert_eq!(runs[0], ("4k".to_owned(), 60, "hevc".to_owned()));
    assert_eq!(runs[1], ("4k".to_owned(), 60, "h264".to_owned()));
    assert_eq!(runs[3], ("4k".to_owned(), 120, "hevc".to_owned()));
    assert_eq!(runs[26], ("1080p".to_owned(), 360, "av1".to_owned()));
    runs.sort();
    runs.dedup();
    assert_eq!(runs.len(), RUNS);
    assert_eq!(matrix.result(), Ok(()));
}

#[test]
fn a_matrix_tells_of_failures_and_stops_where_it_is_broken_off() {
    let mut matrix = Matrix::new();
    matrix.ended(MatrixStatus::Failed("x".to_owned()));
    matrix.ended(MatrixStatus::Finished(None));
    matrix.ended(MatrixStatus::Failed("y".to_owned()));
    assert_eq!(matrix.result(), Err("2 matrix benchmark run(s) failed".to_owned()));
    assert!(matrix.next_run().is_some());
    matrix.ended(MatrixStatus::Interrupted(None));
    assert_eq!(matrix.result(), Err("Matrix benchmark interrupted".to_owned()));
    assert!(matrix.next_run().is_none());
}

#[test]
fn ends_of_runs_have_words() {
    let mut stats = StatsAccumulator::new(0);
    stats.add(&frame(1), 1);
    assert_eq!(MatrixStatus::Finished(stats.summary()).label(), "ok");
    assert_eq!(MatrixStatus::Finished(None).label(), "no-frames");
    assert_eq!(MatrixStatus::Interrupted(None).label(), "interrupted");
    assert_eq!(MatrixStatus::Failed("x".to_owned()).label(), "failed: x");
}
