use fvideo::picture::{Picture, BLACK, NEUTRAL, WHITE};
use fvideo::plane::{copy_window, paint_rect};
use fvideo::{fovea_size, gaze_moved, GazeSample};

fn gaze(p_x: u32, p_y: u32) -> GazeSample {
    GazeSample {
        time: 0,
        seqno: 0,
        d_width: 0,
        d_height: 0,
        d_x: p_x,
        d_y: p_y,
        p_x,
        p_y,
        m_x: p_x / 16,
        m_y: p_y / 16,
    }
}

/// A picture whose luma sample at (r, c) is r * 16 + c and whose chroma samples
/// are 100 + r * 8 + c and 200 + r * 8 + c.
fn ramp(width: u32, height: u32) -> Picture {
    let mut pic = Picture::new(width, height).unwrap();
    let luma: Vec<u8> = (0..height)
        .flat_map(|r| (0..width).map(move |c| (r * 16 + c) as u8))
        .collect();
    let cb: Vec<u8> = (0..height / 2)
        .flat_map(|r| (0..width / 2).map(move |c| (100 + r * 8 + c) as u8))
        .collect();
    let cr: Vec<u8> = (0..height / 2)
        .flat_map(|r| (0..width / 2).map(move |c| (200 + r * 8 + c) as u8))
        .collect();
    pic.load_plane(0, &luma).unwrap();
    pic.load_plane(1, &cb).unwrap();
    pic.load_plane(2, &cr).unwrap();
    pic
}

fn sentinel(width: u32, height: u32) -> Picture {
    let mut pic = Picture::new(width, height).unwrap();
    for plane in 0..3 {
        let n = pic.as_slice(plane).unwrap().len();
        pic.load_plane(plane, &vec![255u8; n]).unwrap();
    }
    pic
}

#[test]
fn test_picture() {
    let mut pic = Picture::new(640, 480).unwrap();
    let mut luma = pic.as_slice(0).unwrap().to_vec();
    luma[0] = 1;
    pic.load_plane(0, &luma).unwrap();
    let p = pic.as_slice(0).unwrap();
    assert_eq!(p[0], 1);
}

#[test]
fn picture_plane_sizes() {
    let pic = Picture::new(640, 480).unwrap();
    assert_eq!(pic.width(), 640);
    assert_eq!(pic.height(), 480);
    assert_eq!(pic.timestamp(), 0);
    assert_eq!(pic.as_slice(0).unwrap().len(), 640 * 480);
    assert_eq!(pic.as_slice(1).unwrap().len(), 320 * 240);
    assert_eq!(pic.as_slice(2).unwrap().len(), 320 * 240);
    assert_eq!(pic.as_slice(3), Err("Invalid Argument"));
    let odd = Picture::new(5, 3).unwrap();
    assert_eq!(odd.as_slice(0).unwrap().len(), 15);
    assert_eq!(odd.as_slice(1).unwrap().len(), 2);
    let empty = Picture::new(0, 7).unwrap();
    assert_eq!(empty.as_slice(0).unwrap().len(), 0);
}

#[test]
fn picture_load_plane_checks_size() {
    let mut pic = Picture::new(4, 4).unwrap();
    assert_eq!(pic.load_plane(0, &[1; 15]), Err("Invalid Argument"));
    assert_eq!(pic.load_plane(1, &[1; 5]), Err("Invalid Argument"));
    assert_eq!(pic.load_plane(3, &[]), Err("Invalid Argument"));
    assert_eq!(pic.as_slice(0).unwrap(), &[0u8; 16][..]);
    assert_eq!(pic.load_plane(2, &[7; 4]), Ok(()));
    assert_eq!(pic.as_slice(2).unwrap(), &[7u8; 4][..]);
    assert_eq!(pic.as_slice(1).unwrap(), &[0u8; 4][..]);
    pic.set_timestamp(-5);
    assert_eq!(pic.timestamp(), -5);
    assert_eq!(pic.as_slice(2).unwrap(), &[7u8; 4][..]);
}

#[test]
fn paint_black_and_white_box() {
    let mut pic = Picture::new(40, 6).unwrap();
    pic.paint_black();
    assert!(pic.as_slice(0).unwrap().iter().all(|&v| v == BLACK));
    assert!(pic.as_slice(1).unwrap().iter().all(|&v| v == NEUTRAL));
    assert!(pic.as_slice(2).unwrap().iter().all(|&v| v == NEUTRAL));

    // A box of side 2: the bottom row, the two columns on the left.
    pic.paint_white_box(2);
    let luma = pic.as_slice(0).unwrap();
    for r in 0..6 {
        for c in 0..40 {
            let expect = if r > 6 - 2 && c < 2 { WHITE } else { BLACK };
            assert_eq!(luma[r * 40 + c], expect, "row {} column {}", r, c);
        }
    }
    assert!(pic.as_slice(1).unwrap().iter().all(|&v| v == NEUTRAL));

    // A box larger than the picture covers it.
    pic.paint_white_box(100);
    assert!(pic.as_slice(0).unwrap().iter().all(|&v| v == WHITE));
    pic.paint_white_box(0);
    assert!(pic.as_slice(0).unwrap().iter().all(|&v| v == BLACK));
    pic.paint_white_box(1);
    assert!(pic.as_slice(0).unwrap().iter().all(|&v| v == BLACK));
}

#[test]
fn crop_inside_the_source() {
    let src = ramp(16, 8);
    let mut dst = sentinel(4, 4);
    let mut g = gaze(6, 4);
    src.crop(&mut dst, &mut g);
    // top-left is (4, 2): even on both axes, the gaze is not moved
    assert_eq!((g.p_x, g.p_y), (6, 4));
    let luma = dst.as_slice(0).unwrap();
    for r in 0..4u32 {
        for c in 0..4u32 {
            assert_eq!(luma[(r * 4 + c) as usize], ((r + 2) * 16 + c + 4) as u8);
        }
    }
    let cb = dst.as_slice(1).unwrap();
    let cr = dst.as_slice(2).unwrap();
    for r in 0..2u32 {
        for c in 0..2u32 {
            assert_eq!(cb[(r * 2 + c) as usize], (100 + (r + 1) * 8 + c + 2) as u8);
            assert_eq!(cr[(r * 2 + c) as usize], (200 + (r + 1) * 8 + c + 2) as u8);
        }
    }
}

#[test]
fn crop_moves_odd_origin_and_gaze() {
    let src = ramp(16, 8);
    let mut dst = sentinel(4, 4);
    let mut g = gaze(7, 5);
    src.crop(&mut dst, &mut g);
    // p - F/2 = (5, 3) is odd: the window starts at (6, 4) and the gaze follows
    assert_eq!((g.p_x, g.p_y), (8, 6));
    assert_eq!((g.d_x, g.d_y, g.m_x, g.m_y), (7, 5, 0, 0));
    let luma = dst.as_slice(0).unwrap();
    assert_eq!(luma[0], (4 * 16 + 6) as u8);
    assert_eq!(luma[15], (7 * 16 + 9) as u8);
    let cb = dst.as_slice(1).unwrap();
    assert_eq!(cb[0], (100 + 2 * 8 + 3) as u8);
}

#[test]
fn crop_alignment_is_even_for_every_gaze() {
    let src = ramp(16, 8);
    for p_x in 0..20u32 {
        for p_y in 0..12u32 {
            let mut dst = sentinel(6, 6);
            let mut g = gaze(p_x, p_y);
            src.crop(&mut dst, &mut g);
            let left = g.p_x as i64 - 3;
            let top = g.p_y as i64 - 3;
            assert_eq!(left.rem_euclid(2), 0);
            assert_eq!(top.rem_euclid(2), 0);
            assert!(g.p_x == p_x || g.p_x == p_x + 1);
            assert!(g.p_y == p_y || g.p_y == p_y + 1);
            let luma = dst.as_slice(0).unwrap();
            for r in 0..6i64 {
                for c in 0..6i64 {
                    let (sr, sc) = (top + r, left + c);
                    let expect = if (0..8).contains(&sr) && (0..16).contains(&sc) {
                        (sr * 16 + sc) as u8
                    } else {
                        255
                    };
                    assert_eq!(luma[(r * 6 + c) as usize], expect);
                }
            }
            let cb = dst.as_slice(1).unwrap();
            for r in 0..3i64 {
                for c in 0..3i64 {
                    let (sr, sc) = (top / 2 + r, left / 2 + c);
                    let expect = if (0..4).contains(&sr) && (0..8).contains(&sc) {
                        (100 + sr * 8 + sc) as u8
                    } else {
                        255
                    };
                    assert_eq!(cb[(r * 3 + c) as usize], expect);
                }
            }
        }
    }
}

#[test]
fn crop_clips_at_the_top_left() {
    let src = ramp(16, 8);
    let mut dst = sentinel(8, 8);
    let mut g = gaze(0, 0);
    src.crop(&mut dst, &mut g);
    assert_eq!((g.p_x, g.p_y), (0, 0));
    let luma = dst.as_slice(0).unwrap();
    for r in 0..8u32 {
        for c in 0..8u32 {
            let expect = if r >= 4 && c >= 4 {
                ((r - 4) * 16 + (c - 4)) as u8
            } else {
                255
            };
            assert_eq!(luma[(r * 8 + c) as usize], expect, "row {} column {}", r, c);
        }
    }
    let cb = dst.as_slice(1).unwrap();
    for r in 0..4u32 {
        for c in 0..4u32 {
            let expect = if r >= 2 && c >= 2 {
                (100 + (r - 2) * 8 + (c - 2)) as u8
            } else {
                255
            };
            assert_eq!(cb[(r * 4 + c) as usize], expect);
        }
    }
}

#[test]
fn crop_clips_at_the_bottom_right() {
    let src = ramp(16, 8);
    let mut dst = sentinel(8, 8);
    let mut g = gaze(16, 8);
    src.crop(&mut dst, &mut g);
    assert_eq!((g.p_x, g.p_y), (16, 8));
    let luma = dst.as_slice(0).unwrap();
    for r in 0..8u32 {
        for c in 0..8u32 {
            let expect = if r < 4 && c < 4 {
                ((r + 4) * 16 + (c + 12)) as u8
            } else {
                255
            };
            assert_eq!(luma[(r * 8 + c) as usize], expect, "row {} column {}", r, c);
        }
    }
}

#[test]
fn crop_far_outside_leaves_the_destination() {
    let src = ramp(16, 8);
    let mut dst = sentinel(4, 4);
    let mut g = gaze(1000, 1000);
    src.crop(&mut dst, &mut g);
    assert!(dst.as_slice(0).unwrap().iter().all(|&v| v == 255));
    assert!(dst.as_slice(1).unwrap().iter().all(|&v| v == 255));
    let mut g = gaze(u32::MAX - 1, 2);
    src.crop(&mut dst, &mut g);
    assert!(dst.as_slice(0).unwrap().iter().all(|&v| v == 255));
    assert_eq!(g.p_x, u32::MAX - 1);
}

#[test]
fn crop_larger_than_the_source() {
    let src = ramp(4, 4);
    let mut dst = sentinel(8, 8);
    let mut g = gaze(2, 2);
    src.crop(&mut dst, &mut g);
    // origin is (-2, -2)
    let luma = dst.as_slice(0).unwrap();
    for r in 0..8u32 {
        for c in 0..8u32 {
            let expect = if (2..6).contains(&r) && (2..6).contains(&c) {
                ((r - 2) * 16 + (c - 2)) as u8
            } else {
                255
            };
            assert_eq!(luma[(r * 8 + c) as usize], expect);
        }
    }
}

#[test]
fn copy_window_and_paint_rect() {
    let src: Vec<u8> = (0..12).collect();
    let mut dst = vec![99u8; 6];
    copy_window(&src, 4, 3, &mut dst, 3, 2, 2, 1, 0, 0);
    assert_eq!(dst, vec![6, 7, 99, 10, 11, 99]);
    let mut dst = vec![99u8; 6];
    copy_window(&src, 4, 3, &mut dst, 3, 2, 0, 0, 1, 1);
    assert_eq!(dst, vec![99, 99, 99, 99, 0, 1]);
    let mut dst = vec![99u8; 6];
    copy_window(&src, 4, 3, &mut dst, 3, 2, 4, 0, 0, 0);
    assert_eq!(dst, vec![99; 6]);
    let mut plane = vec![0u8; 12];
    paint_rect(&mut plane, 4, 3, 1, 3, 1, 3, 5);
    assert_eq!(plane, vec![0, 0, 0, 0, 0, 5, 5, 0, 0, 5, 5, 0]);
    paint_rect(&mut plane, 4, 3, 2, 2, 0, 4, 9);
    assert_eq!(plane, vec![0, 0, 0, 0, 0, 5, 5, 0, 0, 5, 5, 0]);
}

#[test]
fn fovea_size_in_pixels() {
    assert_eq!(fovea_size(10, 2160), Some(160));
    assert_eq!(fovea_size(30, 2160), Some(480));
    assert_eq!(fovea_size(200, 2160), Some(2160));
    assert_eq!(fovea_size(135, 2160), Some(2160));
    assert_eq!(fovea_size(1, 15), Some(16));
    assert_eq!(fovea_size(1, 16), Some(16));
    assert_eq!(fovea_size(u32::MAX, 1080), Some(1080));
    assert_eq!(fovea_size(3, 7), Some(8));
    assert_eq!(fovea_size(3, 0), Some(0));
    assert_eq!(fovea_size(0, 2160), None);
    assert_eq!(fovea_size(u32::MAX, u32::MAX), None);
    assert_eq!(fovea_size(u32::MAX, u32::MAX - 1), Some(u32::MAX - 1));
}

#[test]
fn gaze_moved_is_a_strict_threshold() {
    let a = gaze(100, 100);
    assert!(!gaze_moved(&a, &gaze(110, 90), 10));
    assert!(gaze_moved(&a, &gaze(111, 100), 10));
    assert!(gaze_moved(&a, &gaze(100, 89), 10));
    assert!(!gaze_moved(&a, &a, 0));
    assert!(gaze_moved(&a, &a, -1));
    assert!(gaze_moved(&gaze(0, 0), &gaze(u32::MAX, 0), i32::MAX));
    assert!(!gaze_moved(&gaze(0, 0), &gaze(i32::MAX as u32, 0), i32::MAX));
}

#[test]
fn copy_window_between_inner_positions() {
    let src: Vec<u8> = (0..20).collect();
    let mut dst = vec![99u8; 12];
    // from column 3, row 1 of a 5 by 4 plane to column 2, row 1 of a 4 by 3 plane
    copy_window(&src, 5, 4, &mut dst, 4, 3, 3, 1, 2, 1);
    assert_eq!(dst, vec![99, 99, 99, 99, 99, 99, 8, 9, 99, 99, 13, 14]);
}
