use moonshine::video::gso::{gso_segments_per_send, MAX_UDP_PAYLOAD};

#[test]
fn gso_segment_count_cap_binds() {
    // Payload cap (65507 / 100 = 655) is looser than the segment cap.
    assert_eq!(gso_segments_per_send(8, 100), 8);
}

#[test]
fn gso_payload_cap_binds() {
    // 65507 / 2000 = 32, tighter than the kernel's 64-segment cap.
    assert_eq!(gso_segments_per_send(64, 2000), 32);
}

#[test]
fn gso_boundary_shard_sizes() {
    assert_eq!(gso_segments_per_send(64, MAX_UDP_PAYLOAD), 1);
    assert_eq!(gso_segments_per_send(64, MAX_UDP_PAYLOAD - 1), 1);
    // A shard that cannot fit a datagram at all still yields 1, not 0.
    assert_eq!(gso_segments_per_send(64, MAX_UDP_PAYLOAD + 1), 1);
    assert_eq!(gso_segments_per_send(64, 0), 1);
}

#[test]
fn gso_chunks_respect_kernel_limits() {
    // Shard counts chosen to force a partial final chunk.
    for (shard_count, shard_size) in [(250usize, 1404usize), (47, 1404), (100, 733)] {
        let segments = gso_segments_per_send(64, shard_size);
        let data = vec![0u8; shard_count * shard_size];
        for chunk in data.chunks(segments * shard_size) {
            assert_eq!(chunk.len() % shard_size, 0);
            assert!(chunk.len() <= MAX_UDP_PAYLOAD);
            assert!(chunk.len() / shard_size <= 64);
        }
    }
}
