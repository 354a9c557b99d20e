use fv_common::{
    circular_plan, Buffer, CircularPlan, CircularWrite, FileDigest, FpsCounter, FpsSample,
    Timestamp, VideoFrame, VideoInfo,
};

#[test]
fn the_digest_is_sha_256() {
    let d = FileDigest::from_bytes(b"abc");
    let expected: [u8; 32] = [
        0xba, 0x78, 0x16, 0xbf, 0x8f, 0x01, 0xcf, 0xea, 0x41, 0x41, 0x40, 0xde, 0x5d, 0xae, 0x22,
        0x23, 0xb0, 0x03, 0x61, 0xa3, 0x96, 0x17, 0x7a, 0x9c, 0xb4, 0x10, 0xff, 0x61, 0xf2, 0x00,
        0x15, 0xad,
    ];
    assert_eq!(d.as_bytes(), &expected[..]);
    let empty = FileDigest::from_bytes(b"");
    assert_eq!(empty.as_bytes().len(), 32);
    assert_eq!(empty.as_bytes()[0], 0xe3);
    assert_eq!(empty.as_bytes()[31], 0x55);
}

#[test]
fn digests_are_equal_when_the_content_is() {
    let a = FileDigest::from_bytes(b"profiles");
    let b = FileDigest::from_bytes(b"profiles");
    let c = FileDigest::from_bytes(b"profiles!");
    assert!(a.same_as(&b));
    assert!(!a.same_as(&c));
    assert_eq!(a, b);
    assert_ne!(a, c);
    assert_eq!(a.clone(), a);
}

#[test]
fn a_report_closes_the_period_when_it_is_over() {
    let mut counter = FpsCounter::new();
    counter.update();
    counter.update();
    counter.update();
    assert_eq!(counter.report_after(1_000_000_000, 1), None);
    assert_eq!(counter.report_after(999, 0), Some(FpsSample { frames: 3, elapsed_nanos: 999 }));
    assert_eq!(counter.report_after(2_000_000_001, 2), Some(FpsSample {
        frames: 0,
        elapsed_nanos: 2_000_000_001
    }));
    counter.update();
    assert_eq!(counter.report_after(0, 0), None);
    assert_eq!(counter.report_fps(3600), None);
    assert_eq!(counter.report_after(1, 0).map(|s| s.frames), Some(1));
    let sample = FpsSample { frames: 50, elapsed_nanos: 2_000_000_000 };
    let fps = 1.0 / (sample.elapsed_nanos as f32 / 1e9 / sample.frames as f32);
    assert_eq!(fps, 25.0);
    assert_eq!(FpsCounter::default().report_after(u128::MAX, u64::MAX).map(|s| s.frames), Some(0));
}

#[test]
fn a_write_is_laid_out_around_the_end_of_the_sink() {
    assert_eq!(circular_plan(0, 100, 20), CircularPlan::Append);
    assert_eq!(circular_plan(80, 100, 20), CircularPlan::Append);
    assert_eq!(circular_plan(81, 100, 20), CircularPlan::Split { first: 19 });
    assert_eq!(circular_plan(99, 100, 20), CircularPlan::Split { first: 1 });
    assert_eq!(circular_plan(100, 100, 20), CircularPlan::Rewind);
    assert_eq!(circular_plan(500, 100, 20), CircularPlan::Rewind);
    assert_eq!(circular_plan(0, 0, 0), CircularPlan::Rewind);
    assert_eq!(circular_plan(10, 100, 0), CircularPlan::Append);
    assert_eq!(circular_plan(u64::MAX - 1, u64::MAX, 5), CircularPlan::Split { first: 1 });
}

struct Ring {
    data: Vec<u8>,
    pos: u64,
}

impl CircularWrite for Ring {
    fn circular_write_all(&mut self, data: &[u8]) -> Result<(), std::io::Error> {
        let capacity = self.data.len() as u64;
        let (head, tail) = match circular_plan(self.pos, capacity, data.len()) {
            CircularPlan::Rewind => {
                self.pos = 0;
                (data, &data[..0])
            }
            CircularPlan::Split { first } => data.split_at(first),
            CircularPlan::Append => (data, &data[..0]),
        };
        let at = self.pos as usize;
        self.data[at..at + head.len()].copy_from_slice(head);
        self.pos += head.len() as u64;
        if !tail.is_empty() {
            self.data[..tail.len()].copy_from_slice(tail);
            self.pos = tail.len() as u64;
        }
        Ok(())
    }
}

#[test]
fn a_sink_can_be_written_in_a_circle() {
    let mut ring = Ring { data: vec![0; 8], pos: 0 };
    ring.circular_write_all(b"abcde").unwrap();
    ring.circular_write_all(b"fghij").unwrap();
    assert_eq!(&ring.data, b"ijcdefgh");
    assert_eq!(ring.pos, 2);
    ring.pos = 8;
    ring.circular_write_all(b"xy").unwrap();
    assert_eq!(&ring.data, b"xycdefgh");
}

#[test]
fn a_buffer_maps_the_bytes_in_use() {
    let buffer = Buffer { data: vec![1, 2, 3, 4, 5], size: 3 };
    assert_eq!(buffer.data(), &[1, 2, 3, 4, 5]);
    assert_eq!(buffer.size(), 3);
    let map = buffer.map_readable().unwrap();
    assert_eq!(map.as_slice(), &[1, 2, 3]);
    let info = VideoInfo { width: 640, height: 480 };
    assert_eq!(info.width(), 640);
    assert_eq!(info.height(), 480);
    let frame = VideoFrame { id: 1, buffer, info, pts: Timestamp::from(5u64) };
    assert_eq!(frame.clone().pts.as_micros(), 5);
    let whole = Buffer { data: vec![9; 4], size: 4 };
    assert_eq!(whole.map_readable().unwrap().as_slice().len(), 4);
    let none = Buffer { data: vec![9; 4], size: 0 };
    assert!(none.map_readable().unwrap().as_slice().is_empty());
}
