use fvideo::dummyserver::{
    pair_dummy_frames, single_stream_frames, DummyFrame, FvideoDummyServer,
    FvideoDummyTwoStreamServer, LINGER_FRAMES,
};
use fvideo::pacing::FrameClock;
use fvideo::picture::{BLACK, NEUTRAL, WHITE};
use fvideo::text::NumberFault;
use fvideo::twostreamserver::{pair_frames, Foreground, FvideoTwoStreamServer, TwoStreamPlan};
use fvideo::y4m::FrameRate;
use fvideo::{Dims, FvideoServerError, GazeSample, NalData};

fn gaze(p_x: u32, p_y: u32) -> GazeSample {
    GazeSample {
        time: 0,
        seqno: 0,
        d_width: 1920,
        d_height: 1080,
        d_x: p_x,
        d_y: p_y,
        p_x,
        p_y,
        m_x: p_x / 16,
        m_y: p_y / 16,
    }
}

fn nal(bytes: &[u8]) -> NalData {
    NalData { vec: bytes.to_vec() }
}

fn finished<T: std::fmt::Debug>(r: Result<T, FvideoServerError>) {
    match r {
        Err(FvideoServerError::EncoderError(m)) => assert_eq!(m, "Finished."),
        other => panic!("{:?}", other),
    }
}

#[test]
fn dummy_white_after_the_gaze_moves() {
    // first gaze (0,0), then (200,200): one white picture, then the end
    let mut server = FvideoDummyServer::new(1920, 1080).unwrap();
    assert!(!server.triggered());
    assert_eq!(
        server.encode_frame(gaze(0, 0)).unwrap(),
        DummyFrame { white: false, timestamp: 0 }
    );
    assert!(!server.triggered());
    assert_eq!(
        server.encode_frame(gaze(200, 200)).unwrap(),
        DummyFrame { white: true, timestamp: 1 }
    );
    assert!(server.triggered());
    assert_eq!(server.picture(true).timestamp(), 1);
    finished(server.encode_frame(gaze(200, 200)));
    finished(server.encode_frame(gaze(0, 0)));
    assert_eq!(server.timestamp, 2);
}

#[test]
fn dummy_trigger_semantics() {
    let run = [
        (10, 10),
        (60, 10),
        (10, 60),
        (0, 0),
        (61, 10),
        (10, 10),
        (10, 10),
    ];
    let mut server = FvideoDummyServer::new(64, 64).unwrap();
    let mut whites = 0;
    for (i, (x, y)) in run.iter().enumerate() {
        let out = server.encode_frame(gaze(*x, *y));
        if i < 4 {
            assert_eq!(out.unwrap(), DummyFrame { white: false, timestamp: i as i64 });
        } else if (i as i64) < 4 + LINGER_FRAMES {
            assert_eq!(out.unwrap(), DummyFrame { white: true, timestamp: i as i64 });
            whites += 1;
        } else {
            finished(out);
        }
    }
    assert_eq!(whites, LINGER_FRAMES);
}

#[test]
fn dummy_threshold_is_strict_and_per_axis() {
    let mut server = FvideoDummyServer::new(64, 64).unwrap();
    assert!(!server.encode_frame(gaze(100, 100)).unwrap().white);
    assert!(!server.encode_frame(gaze(150, 50)).unwrap().white);
    assert!(server.encode_frame(gaze(100, 151)).unwrap().white);
}

#[test]
fn dummy_reset_trigger_keeps_the_first_gaze() {
    let mut server = FvideoDummyServer::new(64, 64).unwrap();
    assert!(!server.encode_frame(gaze(0, 0)).unwrap().white);
    assert!(server.encode_frame(gaze(51, 0)).unwrap().white);
    finished(server.encode_frame(gaze(0, 0)));
    server.reset_trigger();
    assert!(!server.triggered());
    assert!(!server.encode_frame(gaze(50, 50)).unwrap().white);
    assert!(server.encode_frame(gaze(0, 51)).unwrap().white);
    finished(server.encode_frame(gaze(0, 0)));
}

#[test]
fn dummy_pictures_content() {
    let server = FvideoDummyServer::new(1920, 1080).unwrap();
    let black = server.picture(false);
    assert!(black.as_slice(0).unwrap().iter().all(|&v| v == BLACK));
    assert!(black.as_slice(1).unwrap().iter().all(|&v| v == NEUTRAL));
    assert!(black.as_slice(2).unwrap().iter().all(|&v| v == NEUTRAL));
    let white = server.picture(true);
    let luma = white.as_slice(0).unwrap();
    let box_dim = 1920 / 19;
    for c in 0..1080usize {
        for r in 0..1920usize {
            let expect = if c > 1080 - box_dim && r < box_dim { WHITE } else { BLACK };
            assert_eq!(luma[1920 * c + r], expect);
        }
    }
    assert!(white.as_slice(1).unwrap().iter().all(|&v| v == NEUTRAL));
    assert!(white.as_slice(2).unwrap().iter().all(|&v| v == NEUTRAL));
}

#[test]
fn dummy_frames_have_no_foreground() {
    let frames = single_stream_frames(Some(nal(&[1, 2])));
    assert!(frames.0.is_none());
    assert_eq!(frames.1.unwrap().as_bytes(), &[1, 2]);
    let frames = single_stream_frames(None);
    assert!(frames.0.is_none() && frames.1.is_none());
}

#[test]
fn dummy_two_stream_needs_a_fovea() {
    let src = Dims { width: 1920, height: 1080 };
    let bg = Dims { width: 512, height: 288 };
    match FvideoDummyTwoStreamServer::new(src, bg, 0) {
        Err(FvideoServerError::TwoStreamError(m)) => {
            assert_eq!(m, "TwoStream requires fovea to be non-zero.")
        }
        _ => panic!("a fovea of 0 was taken"),
    }
    let server = FvideoDummyTwoStreamServer::new(src, bg, 10).unwrap();
    assert_eq!(server.fovea, 160);
    assert_eq!(server.rescale, bg);
    assert_eq!((server.width, server.height), (1920, 1080));
    assert_eq!(server.fg_pic.width(), 160);
    let server = FvideoDummyTwoStreamServer::new(src, bg, 100).unwrap();
    assert_eq!(server.fovea, 1080);
}

#[test]
fn dummy_two_stream_moves_the_gaze_to_the_box() {
    let src = Dims { width: 1920, height: 1080 };
    let bg = Dims { width: 512, height: 288 };
    let mut server = FvideoDummyTwoStreamServer::new(src, bg, 4).unwrap();
    let first = server.encode_frame(gaze(960, 540)).unwrap();
    assert!(!first.white);
    assert_eq!(first.timestamp, 1);
    assert_eq!((first.gaze.p_x, first.gaze.p_y), (960, 540));
    assert!(server.fg_pic.as_slice(0).unwrap().iter().all(|&v| v == BLACK));
    assert_eq!(server.fg_pic.timestamp(), 1);

    let second = server.encode_frame(gaze(1100, 540)).unwrap();
    assert!(second.white);
    assert_eq!(second.timestamp, 3);
    // box side 101: the gaze goes to (50, 1080 - 50); the window of 64 starts at
    // (18, 998), both even
    assert_eq!((second.gaze.p_x, second.gaze.p_y), (50, 1030));
    assert_eq!((second.gaze.d_x, second.gaze.d_y), (1100, 540));
    let luma = server.fg_pic.as_slice(0).unwrap();
    for r in 0..64usize {
        for c in 0..64usize {
            let (sr, sc) = (998 + r, 18 + c);
            let expect = if sr > 1080 - 101 && sc < 101 { WHITE } else { BLACK };
            assert_eq!(luma[r * 64 + c], expect);
        }
    }
    assert!(server.triggered());
    assert_eq!(server.timestamp, 4);
    finished(server.encode_frame(gaze(1100, 540)));
}

#[test]
fn dummy_two_stream_refuses_a_gaze_at_the_limit() {
    let src = Dims { width: 64, height: 64 };
    let bg = Dims { width: 32, height: 32 };
    let mut server = FvideoDummyTwoStreamServer::new(src, bg, 1).unwrap();
    match server.encode_frame(gaze(u32::MAX, 0)) {
        Err(FvideoServerError::TwoStreamError(m)) => assert_eq!(m, "Gaze position out of range."),
        other => panic!("{:?}", other),
    }
    assert_eq!(server.timestamp, 0);
    assert!(server.trigger.first_gaze.is_none());
}

#[test]
fn dummy_two_stream_trigger_semantics() {
    let src = Dims { width: 640, height: 480 };
    let bg = Dims { width: 160, height: 120 };
    for k in 1..6usize {
        let mut server = FvideoDummyTwoStreamServer::new(src, bg, 2).unwrap();
        for i in 0..k {
            // no more than the threshold away from the first gaze
            let frame = server.encode_frame(gaze(100 + 50 * (i as u32 % 2), 100)).unwrap();
            assert!(!frame.white);
            assert!(!server.triggered());
        }
        // the sample that triggers may lie anywhere: the gaze goes to the square
        let frame = server.encode_frame(gaze(u32::MAX, 100)).unwrap();
        assert!(frame.white);
        assert_eq!((frame.gaze.p_x, frame.gaze.p_y), (16, 464));
        assert!(server.triggered());
        assert_eq!(LINGER_FRAMES, 1);
        for g in [gaze(100, 100), gaze(u32::MAX, u32::MAX), gaze(0, 0)] {
            finished(server.encode_frame(g));
            assert!(server.triggered());
        }
    }
}

#[test]
fn dummy_two_stream_square_at_the_largest_coordinate() {
    // a source without columns and as high as the largest coordinate: the
    // centre of the square is (0, u32::MAX), where nothing can be cropped
    let src = Dims { width: 0, height: u32::MAX };
    let bg = Dims { width: 0, height: 16 };
    let mut server = FvideoDummyTwoStreamServer::new(src, bg, 1).unwrap();
    assert!(!server.encode_frame(gaze(0, 0)).unwrap().white);
    match server.encode_frame(gaze(51, 0)) {
        Err(FvideoServerError::TwoStreamError(m)) => assert_eq!(m, "Gaze position out of range."),
        other => panic!("{:?}", other),
    }
    assert!(!server.triggered());
    assert_eq!(server.timestamp, 2);
}

#[test]
fn dummy_pairing_needs_both_streams() {
    let src = Dims { width: 64, height: 64 };
    let bg = Dims { width: 32, height: 32 };
    let mut server = FvideoDummyTwoStreamServer::new(src, bg, 1).unwrap();
    let frame = server.encode_frame(gaze(9, 9)).unwrap();
    let (fg, bgn) = pair_dummy_frames(frame, Some(nal(&[1])), Some(nal(&[2])));
    let (f, g) = fg.unwrap();
    assert_eq!(f.as_bytes(), &[1]);
    assert_eq!(g, frame.gaze);
    assert_eq!(bgn.unwrap().as_bytes(), &[2]);
    let (fg, bgn) = pair_dummy_frames(frame, Some(nal(&[1])), None);
    assert!(fg.is_none() && bgn.is_none());
    let (fg, bgn) = pair_dummy_frames(frame, None, Some(nal(&[2])));
    assert!(fg.is_none() && bgn.is_none());
}

#[test]
fn frame_clock_crosses_multiples_of_the_frame_duration() {
    // 25 frames per second: a frame every 40 ms
    let mut clock = FrameClock::new(FrameRate { num: 25, den: 1 });
    assert!(clock.tick(0));
    assert!(!clock.tick(0));
    assert!(!clock.tick(39_999_999));
    assert!(clock.tick(40_000_000));
    assert!(!clock.tick(40_000_001));
    assert!(!clock.tick(79_999_999));
    assert!(clock.tick(200_000_000));
    // behind schedule: frames 3 and 4 are due as well
    assert!(clock.tick(200_000_000));
    assert!(clock.tick(200_000_000));
    assert!(clock.tick(200_000_000));
    assert!(!clock.tick(200_000_000));
    assert_eq!(clock.frame_cnt, 6);
    assert_eq!(clock.last_frame_time, 200_000_000);
}

#[test]
fn frame_clock_ntsc_rate_is_exact() {
    let mut clock = FrameClock::new(FrameRate { num: 24000, den: 1001 });
    assert!(clock.tick(0));
    // frame 1 is due after 1001/24000 s = 41_708_333.33 ns
    assert!(!clock.tick(41_708_333));
    assert!(clock.tick(41_708_334));
    // frame 24000 is due after exactly 1001 s
    clock.frame_cnt = 24000;
    assert!(!clock.tick(1_000_999_999_999));
    assert!(clock.tick(1_001_000_000_000));
}

#[test]
fn frame_clock_paced_reading_bound() {
    for (num, den) in [(24u64, 1u64), (60, 1), (24000, 1001), (30000, 1001), (1, 3), (0, 1)] {
        for step in [1_000_000u64, 7_000_000, 16_000_000, 250_000_000] {
            let mut clock = FrameClock::new(FrameRate { num, den });
            let n: u64 = 3_000_000_000;
            let mut elapsed = 0;
            let mut advances: u128 = 0;
            while elapsed <= n {
                if clock.tick(elapsed) {
                    advances += 1;
                }
                elapsed += step;
            }
            let frames = n as u128 * num as u128;
            let unit = den as u128 * 1_000_000_000;
            let ceil = (frames + unit - 1) / unit;
            assert!(advances <= ceil + 1, "{}/{} at {}", num, den, step);
            assert_eq!(advances, clock.frame_cnt as u128);
        }
    }
}

#[test]
fn frame_clock_degenerate_rates() {
    let mut never = FrameClock::new(FrameRate { num: 0, den: 1 });
    assert!(never.tick(5));
    assert!(!never.tick(u64::MAX));
    let mut always = FrameClock::new(FrameRate { num: 1, den: 0 });
    assert!(always.tick(0));
    assert!(always.tick(0));
    let mut full = FrameClock { rate: FrameRate { num: 1, den: 0 }, frame_cnt: u32::MAX, last_frame_time: 0 };
    assert!(!full.tick(u64::MAX));
    assert_eq!(full.frame_cnt, u32::MAX);
}

const HEADER: &str = "YUV4MPEG2 W64 H32 F25:1 Ip A0:0 C420jpeg\n";

#[test]
fn two_stream_new_reads_the_header() {
    let bg = Dims { width: 32, height: 16 };
    let server = FvideoTwoStreamServer::new(1, bg, HEADER).unwrap();
    assert_eq!((server.width(), server.height()), (64, 32));
    assert_eq!(server.fovea, 16);
    assert_eq!(server.rescale, bg);
    assert_eq!(server.clock, FrameClock { rate: FrameRate { num: 25, den: 1 }, frame_cnt: 0, last_frame_time: 0 });
    assert_eq!(server.timestamp, 0);
    assert_eq!(server.orig_pic.as_slice(0).unwrap().len(), 64 * 32);
    assert_eq!(server.fg_pic.as_slice(1).unwrap().len(), 8 * 8);
    let server = FvideoTwoStreamServer::new(40, bg, HEADER).unwrap();
    assert_eq!(server.fovea, 32);
}

#[test]
fn two_stream_new_faults() {
    let bg = Dims { width: 32, height: 16 };
    assert!(matches!(
        FvideoTwoStreamServer::new(0, bg, HEADER),
        Err(FvideoServerError::TwoStreamError(_))
    ));
    match FvideoTwoStreamServer::new(1, bg, "FRAME\n") {
        Err(FvideoServerError::ParseY4MError(m)) => assert_eq!(m, "FRAME\n"),
        _ => panic!("a frame marker was taken for a header"),
    }
    // the header is read before the fovea is looked at
    assert!(matches!(
        FvideoTwoStreamServer::new(0, bg, "YUV4MPEG2 W64 H99999999999 F25:1"),
        Err(FvideoServerError::ParseIntError(NumberFault::PosOverflow))
    ));
    assert!(matches!(
        FvideoTwoStreamServer::new(u32::MAX, bg, "YUV4MPEG2 W1 H4294967295 F25:1"),
        Err(FvideoServerError::TryFromIntError)
    ));
}

fn loaded(fovea: u32) -> FvideoTwoStreamServer {
    let mut server =
        FvideoTwoStreamServer::new(fovea, Dims { width: 32, height: 16 }, HEADER).unwrap();
    let y: Vec<u8> = (0..64 * 32).map(|i| (i % 251) as u8).collect();
    let u: Vec<u8> = (0..32 * 16).map(|i| (i % 241) as u8).collect();
    let v: Vec<u8> = (0..32 * 16).map(|i| (i % 239) as u8).collect();
    assert!(server.read_frame(0));
    server.load_frame(&y, &u, &v).unwrap();
    server
}

#[test]
fn two_stream_load_frame_checks_sizes() {
    let mut server = loaded(1);
    let before = server.orig_pic.as_slice(0).unwrap().to_vec();
    match server.load_frame(&[0; 10], &[0; 512], &[0; 512]) {
        Err(FvideoServerError::IoError(m)) => assert_eq!(m, "failed to fill whole buffer"),
        other => panic!("{:?}", other),
    }
    assert!(server.load_frame(&[0; 2048], &[0; 512], &[0; 511]).is_err());
    assert_eq!(server.orig_pic.as_slice(0).unwrap(), &before[..]);
    assert!(server.load_frame(&[1; 2048], &[2; 512], &[3; 512]).is_ok());
    assert_eq!(server.orig_pic.as_slice(0).unwrap(), &[1u8; 2048][..]);
    assert_eq!(server.orig_pic.as_slice(2).unwrap(), &[3u8; 512][..]);
}

#[test]
fn two_stream_background_only_with_a_new_frame() {
    let mut server = loaded(1);
    // new source frame: both streams
    let plan = server.encode_frame(gaze(20, 12), true).unwrap();
    assert_eq!(plan.background, Some(0));
    assert_eq!(plan.foreground, Some(Foreground { timestamp: 0, gaze: gaze(20, 12) }));
    assert_eq!(server.timestamp, 1);
    // the window of 16 starts at (12, 4)
    let luma = server.fg_pic.as_slice(0).unwrap();
    for r in 0..16usize {
        for c in 0..16usize {
            assert_eq!(luma[r * 16 + c], (((r + 4) * 64 + c + 12) % 251) as u8);
        }
    }
    assert_eq!(server.fg_pic.timestamp(), 0);

    // quiet gaze, no new frame: nothing
    let plan = server.encode_frame(gaze(25, 12), false).unwrap();
    assert_eq!(plan, TwoStreamPlan { background: None, foreground: None });
    assert_eq!(server.timestamp, 1);

    // the gaze moved more than 10 pixels: foreground only, and the origin is
    // moved to even coordinates
    let plan = server.encode_frame(gaze(31, 12), false).unwrap();
    assert_eq!(plan.background, None);
    let fg = plan.foreground.unwrap();
    assert_eq!(fg.timestamp, 1);
    assert_eq!((fg.gaze.p_x, fg.gaze.p_y), (32, 12));
    assert_eq!(server.last_gaze_sample, gaze(31, 12));
    assert_eq!(server.timestamp, 2);

    // measured from the last gaze that counted as moved
    let plan = server.encode_frame(gaze(41, 12), false).unwrap();
    assert!(plan.foreground.is_none());
    let plan = server.encode_frame(gaze(42, 12), false).unwrap();
    assert!(plan.foreground.is_some());
}

#[test]
fn two_stream_first_gaze_is_measured_from_the_origin() {
    let mut server = loaded(1);
    let plan = server.encode_frame(gaze(10, 10), false).unwrap();
    assert!(plan.foreground.is_none() && plan.background.is_none());
    let plan = server.encode_frame(gaze(11, 0), false).unwrap();
    assert!(plan.foreground.is_some());
}

#[test]
fn two_stream_refuses_a_gaze_at_the_limit() {
    let mut server = loaded(1);
    match server.encode_frame(gaze(u32::MAX, 3), true) {
        Err(FvideoServerError::TwoStreamError(m)) => assert_eq!(m, "Gaze position out of range."),
        other => panic!("{:?}", other),
    }
    assert_eq!(server.timestamp, 0);
    assert_eq!(server.last_gaze_sample, gaze(0, 0).clone_with_display(0, 0));
}

trait WithDisplay {
    fn clone_with_display(&self, w: u32, h: u32) -> GazeSample;
}

impl WithDisplay for GazeSample {
    fn clone_with_display(&self, w: u32, h: u32) -> GazeSample {
        GazeSample { d_width: w, d_height: h, ..*self }
    }
}

#[test]
fn two_stream_pacing_follows_the_clock() {
    let mut server = loaded(1);
    assert!(!server.read_frame(39_999_999));
    assert!(server.read_frame(40_000_000));
    assert_eq!(server.clock.frame_cnt, 2);
}

#[test]
fn two_stream_pairing() {
    let g = gaze(4, 4);
    let both = TwoStreamPlan { background: Some(3), foreground: Some(Foreground { timestamp: 3, gaze: g }) };
    let (fg, bg) = pair_frames(both, Some(nal(&[1])), Some(nal(&[2])));
    assert_eq!(fg.map(|(n, s)| (n.vec, s)), Some((vec![1], g)));
    assert_eq!(bg.map(|n| n.vec), Some(vec![2]));
    // a delayed encoder gives nothing for its stream
    let (fg, bg) = pair_frames(both, None, Some(nal(&[2])));
    assert!(fg.is_none());
    assert!(bg.is_some());
    let none = TwoStreamPlan { background: None, foreground: None };
    let (fg, bg) = pair_frames(none, Some(nal(&[1])), Some(nal(&[2])));
    assert!(fg.is_none() && bg.is_none());
}
