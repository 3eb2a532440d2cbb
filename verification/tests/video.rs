use moonshine::video::gso::{BatchSend, Chunk};
use moonshine::video::packets::{PacketHandler, Received};

const SECOND: u128 = 1_000_000_000;

#[test]
fn a_ping_tells_where_the_client_listens() {
    let mut handler = PacketHandler::new();
    assert_eq!(handler.destination(5), None);
    assert_eq!(handler.received(b"PONG", 1), Received::Unknown);
    assert_eq!(handler.received(b"PIN", 1), Received::Unknown);
    assert_eq!(handler.received(b"PING!", 1), Received::Unknown);
    assert_eq!(handler.destination(5), None);
    assert_eq!(handler.received(b"PING", 1), Received::Learnt);
    assert_eq!(handler.received(b"PING", 2), Received::Learnt);
    assert_eq!(handler.destination(5), Some(2));
    assert_eq!(handler.destination(0), None);
}

#[test]
fn an_armed_reset_fires_once_on_the_next_ping() {
    let mut handler = PacketHandler::new();
    handler.request_reset();
    assert_eq!(handler.received(b"x", 1), Received::Unknown);
    assert_eq!(handler.received(b"PING", 1), Received::LearntAndReset);
    assert_eq!(handler.received(b"PING", 1), Received::Learnt);
}

#[test]
fn failed_sends_are_warned_about_once_a_second() {
    let mut handler = PacketHandler::new();
    assert!(!handler.batch_sent(0, SECOND));
    assert!(handler.batch_sent(1, SECOND));
    assert!(!handler.batch_sent(1, 2 * SECOND - 1));
    assert!(!handler.batch_sent(1, 0));
    assert!(handler.batch_sent(3, 2 * SECOND));
    assert!(!handler.batch_sent(0, 9 * SECOND));
}

#[test]
fn chunks_cover_the_batch() {
    let mut batch = BatchSend::begin(1000, 150, 64, None, 0).unwrap();
    let mut chunks = Vec::new();
    while let Some(chunk) = batch.next_chunk() {
        chunks.push(chunk);
        batch.chunk_sent(true, chunk.start == 0, if chunk.start == 0 { 2 } else { 0 });
    }
    let chunk = |start, end| Chunk { start, end, due: None };
    assert_eq!(chunks, vec![chunk(0, 64_000), chunk(64_000, 128_000), chunk(128_000, 150_000)]);
    let (result, pacing) = batch.finish(7, None);
    assert_eq!((result.failed_gso_chunks, result.send_errors, result.shard_count), (1, 2, 150));
    assert_eq!((result.elapsed, result.pacing_interval), (7, None));
    assert!(!result.pacing_budget_missed && !result.frame_deadline_missed && pacing);
    assert!(BatchSend::begin(0, 5, 64, None, 0).is_none());
    assert!(BatchSend::begin(5, 0, 64, None, 0).is_none());
}

#[test]
fn paced_chunks_are_due_one_interval_apart() {
    let mut batch = BatchSend::begin(1330, 30, 64, Some((280_000_000, 8_000_000)), 1_000).unwrap();
    let interval = batch.result.pacing_interval.unwrap();
    assert!(!batch.result.deadline_clamped);
    let shards = batch.chunk_len / 1330;
    assert_eq!(interval, (1400 * 8 * shards as u64 * 1_000_000_000).div_ceil(280_000_000));
    assert_eq!(batch.next_chunk().unwrap().due, Some(1_000));
    batch.chunk_sent(true, false, 0);
    assert_eq!(batch.next_chunk().unwrap().due, Some(1_000 + interval as u128));
    batch.chunk_sent(false, false, 0);
    assert_eq!(batch.next_chunk().unwrap().due, None);
    let (result, pacing) = batch.finish(9_000_000, Some((8_000_000, 16_000_000)));
    assert!(result.pacing_budget_missed && !result.frame_deadline_missed && !pacing);
    let late = BatchSend::begin(1330, 3000, 64, Some((280_000_000, 8_000_000)), 0).unwrap();
    assert!(late.result.deadline_clamped);
}
