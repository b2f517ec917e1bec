use ffmpeg_screen_recorder::Position;
use ffmpeg_screen_recorder::Resolution;
use ffmpeg_screen_recorder::WindowInfo;
use ffmpeg_screen_recorder::clip_extent;
use ffmpeg_screen_recorder::pad_dimension;

#[test]
fn normalize_picks_smallest_fitting_ladder_size() {
    let cases: Vec<((i32, i32), (i32, i32))> = vec![
        ((0, 0), (426, 240)),
        ((426, 240), (426, 240)),
        ((427, 240), (640, 360)),
        ((426, 241), (640, 360)),
        ((640, 360), (640, 360)),
        ((854, 480), (854, 480)),
        ((1000, 600), (1280, 720)),
        ((1280, 720), (1280, 720)),
        ((1281, 720), (1920, 1080)),
        ((1920, 1080), (1920, 1080)),
        ((2560, 1440), (2560, 1440)),
        ((3840, 2160), (3840, 2160)),
        ((7680, 4320), (7680, 4320)),
    ];
    for ((w, h), (cw, ch)) in cases {
        let r = Resolution::new(w, h).get_normalized_resolution();
        assert_eq!((r.width, r.height), (cw, ch));
    }
}

#[test]
fn normalize_clamps_oversized_rectangles() {
    let r = Resolution::new(7681, 100).get_normalized_resolution();
    assert_eq!((r.width, r.height), (7680, 4320));
    let r = Resolution::new(100, 4321).get_normalized_resolution();
    assert_eq!((r.width, r.height), (7680, 4320));
}

#[test]
fn normalize_never_crops_within_ladder_bounds() {
    for (w, h) in [(1, 1), (853, 479), (1919, 1079), (7680, 4320)] {
        let r = Resolution::new(w, h).get_normalized_resolution();
        assert!(r.width >= w && r.height >= h);
    }
}

#[test]
fn normalize_area_is_monotonic() {
    let area = |w: i32, h: i32| {
        let r = Resolution::new(w, h).get_normalized_resolution();
        i64::from(r.width) * i64::from(r.height)
    };
    let pairs = [
        ((100, 100), (100, 101)),
        ((426, 240), (427, 240)),
        ((1000, 600), (1920, 1080)),
        ((1920, 1080), (7680, 4320)),
    ];
    for ((w1, h1), (w2, h2)) in pairs {
        assert!(area(w1, h1) <= area(w2, h2));
    }
}

#[test]
fn raw_pad_rounds_up_to_multiple_of_eight() {
    assert_eq!(pad_dimension(1275), 1280);
    assert_eq!(pad_dimension(717), 720);
    assert_eq!(pad_dimension(1920), 1920);
    assert_eq!(pad_dimension(0), 0);
    assert_eq!(pad_dimension(1), 8);
    assert_eq!(pad_dimension(8), 8);
    assert_eq!(pad_dimension(9), 16);
}

#[test]
fn raw_pad_matches_remainder_formula() {
    for v in 0..100 {
        let r = pad_dimension(v);
        assert_eq!(r % 8, 0);
        if v % 8 == 0 {
            assert_eq!(r, v);
        } else {
            assert_eq!(r, v + (8 - v % 8));
        }
    }
}

#[test]
fn clipping_cuts_overhang_to_screen_edge() {
    assert_eq!(clip_extent(1000, 1500, 1920), 420);
    assert_eq!(clip_extent(1000, 920, 1920), 1000);
    assert_eq!(clip_extent(1000, 921, 1920), 999);
    assert_eq!(clip_extent(1000, 50, 1920), 1000);
    assert_eq!(clip_extent(600, 900, 1080), 180);
}

#[test]
fn probe_snapshot_clips_both_dimensions() {
    let screen = Resolution::new(1920, 1080);
    let info = WindowInfo::from_probe(
        screen,
        Resolution::new(1000, 600),
        Position::new(1500, 900),
    );
    assert_eq!(info.screen, screen);
    assert_eq!(info.resolution, Resolution::new(420, 180));
    assert_eq!(info.position, Position::new(1500, 900));
}

#[test]
fn probe_snapshot_keeps_window_that_fits() {
    let screen = Resolution::new(1920, 1080);
    let info = WindowInfo::from_probe(screen, Resolution::new(1000, 600), Position::new(50, 50));
    assert_eq!(info.resolution, Resolution::new(1000, 600));
    assert_eq!(info.position, Position::new(50, 50));
}

#[test]
fn full_screen_snapshot_sits_at_origin() {
    let screen = Resolution::new(1920, 1080);
    let info = WindowInfo::full_screen(screen);
    assert_eq!(info.screen, screen);
    assert_eq!(info.resolution, screen);
    assert_eq!(info.position, Position::new(0, 0));
}
