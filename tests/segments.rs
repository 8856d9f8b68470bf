use zap::{extension_offset, plan_segments, Drain, FailureMap, Segment, SegmentCopy, BUFFER_SIZE};

fn lens(segs: &[Segment]) -> Vec<u64> {
    segs.iter().map(|s| s.end - s.start).collect()
}

fn source_bytes(len: usize, seed: u64) -> Vec<u8> {
    let mut x = seed;
    (0..len)
        .map(|_| {
            x = x.wrapping_mul(6364136223846793005).wrapping_add(1442695040888963407);
            (x >> 33) as u8
        })
        .collect()
}

/// Copies `seg` from `src` into `dest` the way a stream does: reads of at most one
/// buffer, each written out at its own offset, possibly in short writes. Stops
/// after `fail_after` reads when given, as a failed attempt would.
fn copy_segment(src: &[u8], dest: &mut [u8], seg: &Segment, write_cap: usize, fail_after: Option<usize>) -> bool {
    let mut copy = SegmentCopy::new(seg);
    let mut reads = 0;
    while !copy.is_complete() {
        if Some(reads) == fail_after {
            return false;
        }
        let want = copy.next_read_len();
        assert!(want > 0 && want <= BUFFER_SIZE);
        let pos = copy.position() as usize;
        let buf = &src[pos..pos + want];
        let mut drain = Drain::new(buf.len());
        while !drain.is_drained() {
            let at = drain.written();
            let w = std::cmp::min(write_cap, buf.len() - at);
            dest[pos + at..pos + at + w].copy_from_slice(&buf[at..at + w]);
            drain.record_write(w).unwrap();
        }
        copy.record_read(buf.len()).unwrap();
        reads += 1;
    }
    true
}

#[test]
fn hundred_bytes_over_eight_streams() {
    let segs = plan_segments(100, 8);
    assert_eq!(segs.len(), 8);
    assert_eq!(lens(&segs), vec![12, 12, 12, 12, 12, 12, 12, 16]);
    assert_eq!(segs[7].start, 84);
    assert_eq!(segs[7].end, 100);
    for (i, s) in segs.iter().enumerate() {
        assert_eq!(s.stream_num, i);
    }
    let src = source_bytes(100, 3);
    let mut dest = vec![0u8; 100];
    for s in &segs {
        assert!(copy_segment(&src, &mut dest, s, 5, None));
    }
    assert_eq!(dest, src);
}

#[test]
fn remainder_goes_to_last_segment() {
    let segs = plan_segments(10, 3);
    assert_eq!(segs, vec![
        Segment { stream_num: 0, start: 0, end: 3 },
        Segment { stream_num: 1, start: 3, end: 6 },
        Segment { stream_num: 2, start: 6, end: 10 },
    ]);
    let segs = plan_segments(1_000_003, 20);
    for s in &segs[..19] {
        assert_eq!(s.end - s.start, 50_000);
    }
    assert_eq!(segs[19].end - segs[19].start, 50_003);
    assert_eq!(segs[19].end, 1_000_003);
}

#[test]
fn fewer_bytes_than_streams() {
    let segs = plan_segments(3, 5);
    for s in &segs[..4] {
        assert_eq!((s.start, s.end), (0, 0));
        assert!(s.is_empty());
        assert!(SegmentCopy::new(s).is_complete());
    }
    assert_eq!((segs[4].start, segs[4].end), (0, 3));
}

#[test]
fn empty_file() {
    let segs = plan_segments(0, 4);
    assert_eq!(segs.len(), 4);
    for s in &segs {
        assert_eq!((s.start, s.end), (0, 0));
        let copy = SegmentCopy::new(s);
        assert!(copy.is_complete());
        assert_eq!(copy.next_read_len(), 0);
    }
    assert_eq!(extension_offset(0), None);
    assert_eq!(extension_offset(100), Some(99));
}

#[test]
fn single_stream() {
    let segs = plan_segments(3 * BUFFER_SIZE as u64 + 7, 1);
    assert_eq!(segs.len(), 1);
    assert_eq!((segs[0].start, segs[0].end), (0, 3 * BUFFER_SIZE as u64 + 7));
    let mut copy = SegmentCopy::new(&segs[0]);
    let mut reads = Vec::new();
    while !copy.is_complete() {
        let n = copy.next_read_len();
        reads.push((copy.position(), n));
        copy.record_read(n).unwrap();
    }
    assert_eq!(reads, vec![
        (0, BUFFER_SIZE),
        (BUFFER_SIZE as u64, BUFFER_SIZE),
        (2 * BUFFER_SIZE as u64, BUFFER_SIZE),
        (3 * BUFFER_SIZE as u64, 7),
    ]);
}

#[test]
fn segments_partition_the_file() {
    for size in [0u64, 1, 2, 7, 19, 20, 21, 100, 1000, 4097] {
        for n in [1usize, 2, 3, 8, 20, 33] {
            let segs = plan_segments(size, n);
            assert_eq!(segs.len(), n);
            assert_eq!(segs[0].start, 0);
            assert_eq!(segs[n - 1].end, size);
            for w in segs.windows(2) {
                assert_eq!(w[0].end, w[1].start);
            }
            let mut owner = vec![0usize; size as usize];
            for s in &segs {
                assert!(s.start <= s.end);
                if size >= n as u64 {
                    assert!(s.start < s.end);
                }
                for x in s.start..s.end {
                    owner[x as usize] += 1;
                }
            }
            assert!(owner.iter().all(|&c| c == 1));
        }
    }
}

#[test]
fn completion_order_does_not_matter() {
    let size = 1_000;
    let src = source_bytes(size, 11);
    let segs = plan_segments(size as u64, 7);
    let orders: [[usize; 7]; 3] = [[0, 1, 2, 3, 4, 5, 6], [6, 5, 4, 3, 2, 1, 0], [3, 0, 6, 1, 5, 2, 4]];
    for order in orders {
        let mut dest = vec![0u8; size];
        for &i in &order {
            assert!(copy_segment(&src, &mut dest, &segs[i], 64, None));
        }
        assert_eq!(dest, src);
    }
}

#[test]
fn retried_segment_matches_single_attempt() {
    let size = 3 * BUFFER_SIZE + 10;
    let src = source_bytes(size, 5);
    let seg = Segment { stream_num: 0, start: 0, end: size as u64 };
    let mut once = vec![0u8; size];
    assert!(copy_segment(&src, &mut once, &seg, 1 << 16, None));
    let mut retried = vec![0u8; size];
    assert!(!copy_segment(&src, &mut retried, &seg, 1 << 16, Some(2)));
    assert!(copy_segment(&src, &mut retried, &seg, 1 << 16, None));
    assert_eq!(retried, once);
    assert_eq!(once, src);
}

#[test]
fn short_source_and_stuck_writes_fail_the_attempt() {
    let seg = Segment { stream_num: 2, start: 10, end: 30 };
    let mut copy = SegmentCopy::new(&seg);
    assert_eq!(copy.position(), 10);
    copy.record_read(15).unwrap();
    assert_eq!(copy.position(), 25);
    assert_eq!(copy.next_read_len(), 5);
    assert_eq!(copy.record_read(0), Err(zap::CopyError::UnexpectedEof));
    assert_eq!(copy.done(), 15);
    let mut drain = Drain::new(4);
    drain.record_write(3).unwrap();
    assert_eq!(drain.record_write(0), Err(zap::CopyError::WriteZero));
    assert!(!drain.is_drained());
    drain.record_write(1).unwrap();
    assert!(drain.is_drained());
}

#[test]
fn reads_past_the_segment_are_clamped() {
    let seg = Segment { stream_num: 0, start: 0, end: 10 };
    let mut copy = SegmentCopy::new(&seg);
    assert_eq!(copy.accept(6), 6);
    assert_eq!(copy.accept(6), 4);
    assert!(copy.is_complete());
    assert_eq!(copy.accept(6), 0);
}

#[test]
fn failure_map_tracks_streams() {
    let mut map = FailureMap::new(20);
    assert_eq!(map.len(), 20);
    assert!(!map.any_failed());
    assert!(zap::transfer_outcome(&map).is_ok());
    map.mark_failed(3);
    assert!(map.is_failed(3));
    assert!(!map.is_failed(4));
    assert_eq!(map.failed_streams(), vec![3]);
    assert_eq!(
        zap::transfer_outcome(&map),
        Err("Some streams failed to transfer after retries.".to_string())
    );
    map.mark_failed(17);
    assert_eq!(map.failed_streams(), vec![3, 17]);
}

#[test]
fn one_mebibyte_over_four_streams() {
    let size = 1_048_576;
    let src = source_bytes(size, 42);
    let segs = plan_segments(size as u64, 4);
    assert_eq!(lens(&segs), vec![262_144; 4]);
    let mut dest = vec![0u8; size];
    for s in segs.iter().rev() {
        assert!(copy_segment(&src, &mut dest, s, 32_768, None));
    }
    assert_eq!(dest.len(), size);
    assert_eq!(dest, src);
}

#[test]
fn stream_seven_restarts_from_its_segment_start() {
    let size = 1_048_576 * 3;
    let src = source_bytes(size, 9);
    let segs = plan_segments(size as u64, 20);
    let mut dest = vec![0u8; size];
    for s in &segs {
        if s.stream_num == 7 {
            assert!(!copy_segment(&src, &mut dest, s, 4096, Some(0)));
            let mut half = s.clone();
            half.end = s.start + (s.end - s.start) / 2;
            assert!(copy_segment(&src, &mut dest, &half, 4096, None));
        }
        assert!(copy_segment(&src, &mut dest, s, 4096, None));
    }
    assert_eq!(dest, src);
}
