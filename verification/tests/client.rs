use fvideo::client::{apply_alpha, compute_alpha, FvideoClient, Placement, WhiteSquare};
use fvideo::falloff::{offset_table, Shape};
use fvideo::gaze::{eye_index, project_axis, project_sample, to_video_coords, GazeQueue, GazeStats, Rect};
use fvideo::tracker::EyeData;
use fvideo::{
    Coords, Dims, DisplayOptions, EyelinkOptions, FoveationAlg, GazeSample, GazeSource, NalData,
};

const DISP: Dims = Dims { width: 3840, height: 2160 };
const SRC: Dims = Dims { width: 1920, height: 1080 };
const RECT: Rect = Rect { x: 960, y: 540, width: 1920, height: 1080 };
const MS: u64 = 1_000_000;

fn client(alg: FoveationAlg, fovea: u32, delay: u64) -> FvideoClient {
    FvideoClient::new(
        alg,
        fovea,
        SRC,
        Dims { width: 512, height: 512 * 9 / 16 },
        &DisplayOptions { delay, filter: "smartblur=lr=1.0:ls=-1.0".to_string() },
        GazeSource::Mouse,
        EyelinkOptions { calibrate: false, record: false },
        None,
        DISP,
        RECT,
        0,
    )
}

#[test]
fn test_init_client() {
    let client = FvideoClient::new(
        FoveationAlg::TwoStream,
        10,
        Dims { width: 3840, height: 2160 },
        Dims { width: 512, height: 512 * 9 / 16 },
        &DisplayOptions { delay: 0, filter: "smartblur=lr=1.0:ls=-1.0".to_string() },
        GazeSource::Mouse,
        EyelinkOptions { calibrate: false, record: false },
        None,
        Dims { width: 3840, height: 2160 },
        Rect { x: 0, y: 0, width: 3840, height: 2160 },
        0,
    );
    assert_eq!(client.fg, Dims { width: 160, height: 160 });
    assert_eq!(client.bg, Dims { width: 512, height: 288 });
    assert_eq!(client.total_frames(), 0);
    assert_eq!(client.total_bytes(), 0);
    assert_eq!(client.total_gaze(), Coords { x: 0, y: 0 });
    assert_eq!(client.min_gaze(), Coords { x: u64::MAX, y: u64::MAX });
    assert_eq!(client.max_gaze(), Coords { x: 0, y: 0 });
    assert_eq!(client.gaze.samples.len(), 0);
    let first = client.gaze.last;
    assert_eq!((first.d_x, first.d_y), (1920, 1080));
    assert_eq!((first.p_x, first.p_y), (1920, 1080));
    assert_eq!((first.m_x, first.m_y), (120, 67));
    assert_eq!(client.gaze.delay, None);
}

#[test]
fn client_stream_sizes() {
    let one = client(FoveationAlg::Gaussian, 10, 0);
    assert_eq!((one.fg, one.bg), (SRC, SRC));
    let two = client(FoveationAlg::TwoStream, 100, 250);
    assert_eq!(two.fg, Dims { width: 1080, height: 1080 });
    assert_eq!(two.gaze.delay, Some(250 * MS));
    assert_eq!(two.gaze.stats.last_gaze, Coords { x: 960, y: 540 });
}

#[test]
fn gaze_projection() {
    // inside the video rectangle
    assert_eq!(to_video_coords(&RECT, 960, 540), (0, 0));
    assert_eq!(to_video_coords(&RECT, 2879, 1619), (1919, 1079));
    assert_eq!(to_video_coords(&RECT, 1920, 1080), (960, 540));
    // outside: moved to the nearest pixel of the video
    assert_eq!(to_video_coords(&RECT, 0, 0), (0, 0));
    assert_eq!(to_video_coords(&RECT, 959, 3000), (0, 1079));
    assert_eq!(to_video_coords(&RECT, 2880, 1620), (1919, 1079));
    assert_eq!(to_video_coords(&RECT, u32::MAX, u32::MAX), (1919, 1079));
    let ten = Rect { x: 0, y: 0, width: 10, height: 1 };
    assert_eq!(to_video_coords(&ten, 20, 20), (9, 0));
    assert_eq!(to_video_coords(&ten, 9, 0), (9, 0));
    assert_eq!(to_video_coords(&ten, 10, 1), (9, 0));
    let neg = Rect { x: -100, y: i32::MIN, width: 50, height: u32::MAX };
    assert_eq!(to_video_coords(&neg, 0, 0), (49, 1 << 31));
    assert_eq!(project_axis(5, i32::MAX, 10), 0);
    assert_eq!(project_axis(5, 0, 0), 0);
    assert_eq!(project_axis(u32::MAX, i32::MIN, u32::MAX), u32::MAX - 1);
    for d_x in (0..3840).step_by(97) {
        for d_y in (0..2160).step_by(89) {
            let g = project_sample(DISP, &RECT, d_x, d_y, 7, 3);
            assert!(g.p_x < 1920 && g.p_y < 1080);
            assert_eq!((g.m_x, g.m_y), (g.p_x / 16, g.p_y / 16));
            if (960..2880).contains(&d_x) && (540..1620).contains(&d_y) {
                assert_eq!((g.p_x, g.p_y), (d_x - 960, d_y - 540));
            }
            assert_eq!((g.d_width, g.d_height, g.time, g.seqno), (3840, 2160, 7, 3));
        }
    }
}

#[test]
fn gaze_sample_without_delay_is_the_newest() {
    let mut c = client(FoveationAlg::TwoStream, 10, 0);
    let g = c.gaze_sample(Some((1000, 600)), 5);
    assert_eq!((g.seqno, g.time), (0, 5));
    assert_eq!((g.p_x, g.p_y, g.m_x, g.m_y), (40, 60, 2, 3));
    // nothing new: the newest sample again, with a new number and time
    let h = c.gaze_sample(None, 9);
    assert_eq!((h.seqno, h.time), (1, 9));
    assert_eq!((h.p_x, h.p_y, h.d_x, h.d_y), (40, 60, 1000, 600));
    let k = c.gaze_sample(Some((2000, 700)), 9);
    assert_eq!((k.seqno, k.time, k.p_x, k.p_y), (2, 9, 1040, 160));
    assert_eq!(c.gaze.samples.len(), 0);
    assert_eq!(c.gaze.last, k);
    assert_eq!(c.gaze.seqno, 3);
}

#[test]
fn gaze_monotonicity() {
    for delay in [0u64, 1, 3, 40] {
        let mut c = client(FoveationAlg::TwoStream, 10, delay);
        let mut last: Option<GazeSample> = None;
        let mut now = 0;
        for step in 0..200u64 {
            now += (step * 7919) % (2 * MS);
            let reading = if step % 3 == 0 { None } else { Some(((step * 37 % 3840) as u32, (step * 91 % 2160) as u32)) };
            let g = c.gaze_sample(reading, now);
            assert_eq!(g.seqno, step);
            assert_eq!((g.m_x, g.m_y), (g.p_x / 16, g.p_y / 16));
            if let Some(prev) = last {
                assert!(prev.seqno < g.seqno);
                assert!(prev.time <= g.time);
                if delay > 0 {
                    // as old as the delay, or the sample given last again
                    let again = GazeSample { seqno: g.seqno, ..prev };
                    assert!(now - g.time >= delay * MS || g == again);
                }
            }
            last = Some(g);
        }
    }
}

#[test]
fn gaze_sequence_numbers_grow_under_a_delay() {
    let mut c = client(FoveationAlg::TwoStream, 10, 1);
    let a = c.gaze_sample(None, 0);
    let b = c.gaze_sample(None, 0);
    assert_eq!((a.seqno, b.seqno), (0, 1));
    assert_eq!(GazeSample { seqno: 0, ..b }, a);
}

#[test]
fn gaze_time_never_runs_backwards() {
    let mut c = client(FoveationAlg::TwoStream, 10, 0);
    assert_eq!(c.gaze_sample(None, 100).time, 100);
    assert_eq!(c.gaze_sample(None, 50).time, 100);
    assert_eq!(c.gaze_sample(None, 101).time, 101);
}

#[test]
fn gaze_delay_holds_samples_back() {
    let mut c = client(FoveationAlg::TwoStream, 10, 10);
    // nothing is as old as the delay: the centre sample is given again
    let a = c.gaze_sample(Some((1000, 600)), 2 * MS);
    assert_eq!((a.seqno, a.time, a.p_x), (0, 0, 960));
    let b = c.gaze_sample(Some((1100, 600)), 9 * MS);
    assert_eq!((b.seqno, b.time, b.p_x), (1, 0, 960));
    let d = c.gaze_sample(None, 10 * MS);
    assert_eq!((d.seqno, d.time, d.p_x), (2, 0, 960));
    assert_eq!(c.gaze.samples.len(), 3);
    assert_eq!(c.min_gaze(), Coords { x: u64::MAX, y: u64::MAX });
    assert_eq!(c.total_gaze(), Coords { x: 0, y: 0 });
    // the sample of 2 ms is released at 12 ms
    let e = c.gaze_sample(None, 12 * MS - 1);
    assert_eq!((e.seqno, e.time, e.p_x), (3, 0, 960));
    let f = c.gaze_sample(None, 12 * MS);
    assert_eq!((f.seqno, f.time, f.p_x, f.p_y), (4, 2 * MS, 40, 60));
    assert_eq!(c.min_gaze(), Coords { x: 40, y: 60 });
    assert_eq!(c.total_gaze(), Coords { x: 920, y: 480 });
    // the sample of 9 ms is not old enough yet: the one of 2 ms again
    let h = c.gaze_sample(None, 13 * MS);
    assert_eq!((h.seqno, h.time, h.p_x), (5, 2 * MS, 40));
    assert_eq!(c.total_gaze(), Coords { x: 920, y: 480 });
    let k = c.gaze_sample(None, 19 * MS);
    assert_eq!((k.seqno, k.time, k.p_x), (6, 9 * MS, 140));
    assert_eq!(c.total_gaze(), Coords { x: 1020, y: 480 });
    assert_eq!(c.gaze.seqno, 7);
}

#[test]
fn gaze_younger_than_the_delay_is_not_delivered() {
    let mut c = client(FoveationAlg::TwoStream, 10, 1);
    let a = c.gaze_sample(Some((1000, 600)), MS / 2);
    assert_eq!((a.time, a.p_x), (0, 960));
    // at 1 ms the sample of 0.5 ms is half a millisecond old
    let b = c.gaze_sample(None, MS);
    assert_eq!((b.time, b.p_x), (0, 960));
    let d = c.gaze_sample(None, MS + MS / 2 - 1);
    assert_eq!((d.time, d.p_x), (0, 960));
    let e = c.gaze_sample(None, MS + MS / 2);
    assert_eq!((e.time, e.p_x, e.seqno), (MS / 2, 40, 3));
}

#[test]
fn gaze_statistics() {
    let mut c = client(FoveationAlg::TwoStream, 10, 0);
    // the last position starts at the centre of the video, (960, 540)
    c.gaze_sample(Some((1000, 600)), 1);
    assert_eq!(c.total_gaze(), Coords { x: 920, y: 480 });
    assert_eq!(c.min_gaze(), Coords { x: 40, y: 60 });
    assert_eq!(c.max_gaze(), Coords { x: 40, y: 60 });
    c.gaze_sample(Some((3000, 540)), 2);
    assert_eq!(c.total_gaze(), Coords { x: 920 + 1879, y: 480 + 60 });
    assert_eq!(c.min_gaze(), Coords { x: 40, y: 0 });
    assert_eq!(c.max_gaze(), Coords { x: 1919, y: 60 });
    c.gaze_sample(None, 3);
    assert_eq!(c.total_gaze(), Coords { x: 920 + 1879, y: 480 + 60 });
    let mut stats = GazeStats::new(SRC);
    stats.total_gaze = Coords { x: u64::MAX - 5, y: 0 };
    stats.update(0, 540);
    assert_eq!(stats.total_gaze, Coords { x: u64::MAX, y: 0 });
    assert_eq!(stats.last_gaze, Coords { x: 0, y: 540 });
}

fn sample(p_x: u32, p_y: u32, time: u64) -> GazeSample {
    GazeSample { time, seqno: 99, d_width: 3840, d_height: 2160, d_x: p_x, d_y: p_y, p_x, p_y, m_x: p_x / 16, m_y: p_y / 16 }
}

#[test]
fn triggered_sample_is_the_one_before_the_move() {
    let mut c = client(FoveationAlg::TwoStream, 10, 0);
    // the sample given last is the centre sample (960, 540)
    assert_eq!(c.triggered_gaze_sample(sample(1000, 500, 1), 50), None);
    assert!(!c.triggered);
    assert_eq!(c.triggered_gaze_sample(sample(1050, 500, 2), 50), None);
    let before = c.triggered_gaze_sample(sample(1101, 500, 3), 50).unwrap();
    assert_eq!((before.p_x, before.p_y, before.time, before.seqno), (1050, 500, 2, 0));
    assert!(c.triggered);
    assert_eq!(c.gaze.seqno, 1);
    assert_eq!(c.gaze.samples.len(), 0);
    assert_eq!(c.gaze.last.p_x, 1101);
    assert_eq!(c.total_gaze(), Coords { x: 0, y: 0 });
    // the next sample has the next number
    let next = c.gaze_sample(None, 4);
    assert_eq!((next.p_x, next.seqno), (1101, 1));
    let mut q = GazeQueue::new(sample(5, 5, 10), SRC, 0);
    assert_eq!(q.replace(sample(5, 56, 3), 50).map(|g| g.p_y), Some(5));
    assert_eq!(q.last.time, 10);
}

#[test]
fn triggered_sample_is_the_delivered_one_unchanged() {
    for delay in [0u64, 5] {
        let mut c = client(FoveationAlg::TwoStream, 10, delay);
        let a = c.gaze_sample(Some((1000, 600)), 1);
        let b = c.gaze_sample(Some((1010, 600)), 2);
        assert_eq!((a.seqno, b.seqno, c.gaze.seqno), (0, 1, 2));
        // a move at the first poll: the sample given last comes back as it was given
        let far = sample(b.p_x + 51, b.p_y, 3);
        assert_eq!(c.triggered_gaze_sample(far, 50), Some(b));
        assert!(c.triggered);
        assert_eq!(c.gaze.seqno, 3);
        assert_eq!(c.gaze.samples.len(), 0);
        assert_eq!(c.gaze.last, GazeSample { seqno: 2, ..far });
        // what is given next has a larger number than all before
        let next = c.gaze_sample(None, 3 + delay * MS);
        assert_eq!(next.seqno, 3);
        assert!(next.seqno > b.seqno);
    }
}

#[test]
fn triggered_wait_over_several_polls() {
    let mut c = client(FoveationAlg::TwoStream, 10, 0);
    let given = c.gaze_sample(Some((1000, 600)), 1);
    assert_eq!((given.p_x, given.p_y, given.seqno), (40, 60, 0));
    // each poll is held against the sample seen before it
    assert_eq!(c.triggered_gaze_sample(sample(90, 60, 2), 50), None);
    assert_eq!(c.triggered_gaze_sample(sample(140, 110, 3), 50), None);
    assert_eq!(c.gaze.seqno, 1);
    let rounded = GazeSample { m_x: 12, ..sample(190, 160, 4) };
    assert_eq!(c.triggered_gaze_sample(rounded, 50), None);
    assert!(!c.triggered);
    let before = c.triggered_gaze_sample(sample(190, 211, 5), 50);
    // the sample of the poll before, as the queue kept it
    assert_eq!(before, Some(GazeSample { seqno: 1, m_x: 11, ..rounded }));
    assert!(c.triggered);
    assert_eq!(c.gaze.seqno, 2);
    assert_eq!(c.gaze.last, GazeSample { seqno: 1, ..sample(190, 211, 5) });
    // a threshold of 0: any difference is a move; the same position is none
    let mut q = GazeQueue::new(sample(5, 5, 0), SRC, 0);
    assert_eq!(q.replace(sample(5, 5, 1), 0), None);
    assert_eq!(q.replace(sample(5, 6, 2), 0), Some(GazeSample { seqno: 0, ..sample(5, 5, 1) }));
    assert_eq!(q.seqno, 1);
}

#[test]
fn macroblock_position_is_made_from_the_video_position() {
    let mut c = client(FoveationAlg::TwoStream, 10, 0);
    // a sample whose macroblock position was rounded up
    let rounded = GazeSample { m_x: 2, m_y: 7, ..sample(24, 100, 1) };
    assert_eq!(c.triggered_gaze_sample(rounded, i32::MAX), None);
    let g = c.gaze_sample(None, 2);
    assert_eq!((g.p_x, g.p_y), (24, 100));
    assert_eq!((g.m_x, g.m_y), (1, 6));
    let moved = c.triggered_gaze_sample(GazeSample { m_x: 0, ..sample(500, 100, 3) }, 50).unwrap();
    assert_eq!((moved.p_x, moved.m_x, moved.m_y), (24, 1, 6));
    assert_eq!(moved, g);
    assert_eq!(c.gaze_sample(None, 4).m_x, 500 / 16);
    let q = GazeQueue::new(rounded, SRC, 0);
    assert_eq!((q.last.m_x, q.last.m_y), (1, 6));
    let mut q = GazeQueue::new(sample(0, 0, 0), SRC, 5);
    let first = q.deliver(Some(rounded), 0);
    assert_eq!((first.p_x, first.m_x), (0, 0));
    let second = q.deliver(None, 5 * MS);
    assert_eq!((second.p_x, second.m_x, second.m_y), (24, 1, 6));
}

#[test]
fn eye_slots() {
    assert_eq!(eye_index(Some(EyeData::Left)), Some(0));
    assert_eq!(eye_index(Some(EyeData::Right)), Some(1));
    assert_eq!(eye_index(Some(EyeData::Binocular)), Some(0));
    assert_eq!(eye_index(None), None);
}

fn nal(n: usize) -> NalData {
    NalData { vec: vec![0; n] }
}

#[test]
fn display_frame_counts_bytes() {
    let mut c = client(FoveationAlg::TwoStream, 10, 0);
    assert!(!c.display_frame(None, None));
    assert_eq!(c.total_bytes(), 0);
    // before any foreground has come, the origin
    assert_eq!(c.foreground_placement(160, 160), Placement { c_x: 0, c_y: 0, width: 160, height: 160 });
    let g = sample(300, 200, 0);
    let fg = (nal(10), g);
    let bg = nal(100);
    assert!(c.display_frame(Some(&fg), Some(&bg)));
    assert_eq!((c.total_bytes(), c.fg_bytes(), c.bg_bytes()), (110, 10, 100));
    assert_eq!(c.foreground_placement(160, 160), Placement { c_x: 300, c_y: 200, width: 160, height: 160 });
    assert!(c.display_frame(None, Some(&bg)));
    assert_eq!((c.total_bytes(), c.fg_bytes(), c.bg_bytes()), (210, 10, 200));
    // no foreground came with the frame: the gaze of the last one stays
    assert_eq!(c.foreground_placement(160, 160), Placement { c_x: 300, c_y: 200, width: 160, height: 160 });
    assert!(c.display_frame(Some(&fg), None));
    assert_eq!((c.total_bytes(), c.fg_bytes(), c.bg_bytes()), (220, 20, 200));
    assert!(!c.display_frame(None, None));
    assert_eq!(c.foreground_placement(2, 4), Placement { c_x: 300, c_y: 200, width: 2, height: 4 });
    assert_eq!(c.total_frames(), 0);
    c.frame_shown();
    c.frame_shown();
    assert_eq!(c.total_frames(), 2);

    let mut one = client(FoveationAlg::SquareStep, 10, 0);
    assert!(one.display_frame(None, Some(&bg)));
    assert_eq!((one.total_bytes(), one.fg_bytes(), one.bg_bytes()), (100, 0, 0));
    let far = (nal(1), sample(u32::MAX, 7, 0));
    let mut c = client(FoveationAlg::TwoStream, 10, 0);
    c.display_frame(Some(&far), None);
    assert_eq!(c.foreground_placement(1, 1).c_x, i32::MAX);
}

#[test]
fn white_square_geometry() {
    let c = client(FoveationAlg::TwoStream, 10, 0);
    assert_eq!(
        c.display_white(200),
        Some(WhiteSquare { luma_len: 40000, chroma_len: 10000, x: 0, y: 1960, dim: 200 })
    );
    assert_eq!(
        c.display_white(5),
        Some(WhiteSquare { luma_len: 25, chroma_len: 5, x: 0, y: 2155, dim: 5 })
    );
    assert_eq!(c.display_white(2160).unwrap().y, 0);
    assert_eq!(c.display_white(2161), None);
}

fn gaussian(d2: u64, width: u32) -> u8 {
    std::cmp::min(
        255,
        (896.0 * (-1.0 * (d2 as f32 / (2.0 * (width as f32 / 5.0).powi(2)))).exp()).round() as u8,
    )
}

#[test]
fn alpha_distances() {
    let table = compute_alpha(4).unwrap();
    assert_eq!(
        table,
        vec![8, 5, 4, 5, 5, 2, 1, 2, 4, 1, 0, 1, 5, 2, 1, 2]
    );
    assert_eq!(compute_alpha(0).unwrap(), Vec::<u64>::new());
    assert_eq!(compute_alpha(1).unwrap(), vec![0]);
    let table = compute_alpha(3).unwrap();
    assert_eq!(table, vec![2, 1, 2, 1, 0, 1, 2, 1, 2]);
}

#[test]
fn alpha_mask_symmetry() {
    for width in [1u32, 2, 5, 16, 33, 160] {
        let table = compute_alpha(width).unwrap();
        let w = width as i64;
        let c = w / 2;
        let mask: Vec<u8> = table.iter().map(|&d2| gaussian(d2, width)).collect();
        let centre = mask[(c * w + c) as usize];
        for j in 0..w {
            for i in 0..w {
                let v = mask[(j * w + i) as usize];
                assert!(v <= centre);
                assert_eq!(v, mask[(i * w + j) as usize]);
                let (mi, mj) = (2 * c - i, 2 * c - j);
                if mi < w {
                    assert_eq!(v, mask[(j * w + mi) as usize]);
                }
                if mj < w {
                    assert_eq!(v, mask[(mj * w + i) as usize]);
                }
                // the mask as the formula gives it from the indices
                let direct = std::cmp::min(
                    255,
                    (896.0
                        * (-1.0
                            * (((i as i32 - (width / 2) as i32).pow(2)
                                + (j as i32 - (width / 2) as i32).pow(2))
                                as f32
                                / (2.0 * (width as f32 / 5.0).powi(2))))
                        .exp())
                    .round() as u8,
                );
                assert_eq!(v, direct);
            }
        }
        assert_eq!(centre, 255);
    }
}

#[test]
fn offset_tables() {
    let t = offset_table(4, 3, 1, 2, Shape::Distance).unwrap();
    assert_eq!(t, vec![5, 4, 5, 8, 2, 1, 2, 5, 1, 0, 1, 4]);
    let t = offset_table(5, 4, 2, 1, Shape::Step(2)).unwrap();
    assert_eq!(
        t,
        vec![1, 0, 0, 0, 1, 1, 0, 0, 0, 1, 1, 0, 0, 0, 1, 1, 1, 1, 1, 1]
    );
    // the gaze may lie outside of the grid
    let t = offset_table(2, 2, 10, 0, Shape::Distance).unwrap();
    assert_eq!(t, vec![100, 81, 101, 82]);
    let t = offset_table(2, 1, u32::MAX, u32::MAX, Shape::Distance).unwrap();
    assert_eq!(t, vec![u64::MAX, u64::MAX]);
    let t = offset_table(3, 1, 1, 0, Shape::Step(0)).unwrap();
    assert_eq!(t, vec![1, 1, 1]);
    let t = offset_table(3, 1, 1, 0, Shape::Step(-4)).unwrap();
    assert_eq!(t, vec![1, 1, 1]);
    assert_eq!(offset_table(0, 9, 0, 0, Shape::Distance).unwrap(), Vec::<u64>::new());
}

#[test]
fn alpha_channel_is_overwritten() {
    // 2 rows of 3 pixels, stride 14 (two bytes of padding)
    let mut rgba: Vec<u8> = (0..30).collect();
    let alpha = [201, 202, 203, 204, 205, 206, 207];
    assert!(apply_alpha(&mut rgba, 14, 3, 2, &alpha));
    let mut expect: Vec<u8> = (0..30).collect();
    expect[3] = 201;
    expect[7] = 202;
    expect[11] = 203;
    expect[14 + 3] = 204;
    expect[14 + 7] = 205;
    expect[14 + 11] = 206;
    assert_eq!(rgba, expect);
}

#[test]
fn alpha_is_refused_where_sizes_do_not_fit() {
    let before: Vec<u8> = (0..24).collect();
    let mut rgba = before.clone();
    assert!(!apply_alpha(&mut rgba, 11, 3, 2, &[9; 6]));
    assert!(!apply_alpha(&mut rgba, 12, 3, 3, &[9; 9]));
    assert!(!apply_alpha(&mut rgba, 12, 3, 2, &[9; 5]));
    assert!(!apply_alpha(&mut rgba, 12, usize::MAX, 2, &[9; 5]));
    assert!(!apply_alpha(&mut rgba, usize::MAX, 3, 2, &[9; 6]));
    assert_eq!(rgba, before);
    assert!(apply_alpha(&mut rgba, 12, 3, 2, &[9; 6]));
    assert!(apply_alpha(&mut rgba, 0, 0, 5, &[]));
    assert!(apply_alpha(&mut rgba, 5, 1, 0, &[]));
    let mut none: Vec<u8> = vec![];
    assert!(apply_alpha(&mut none, 4, 1, 0, &[]));
}
