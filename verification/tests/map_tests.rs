use std::collections::VecDeque;

use riverraid::map::{RiverMap, RiverMode, RiverPart};

#[test]
fn test_name() {
    let v: VecDeque<u16> = (0..10).collect();
    println!("{v:?}");
    println!("front {:?}", v.front());
    println!("back {:?}", v.back())
}

#[test]
fn map_test_name() {
    let v: VecDeque<u16> = (0..10).collect();
    println!("{v:?}");
    println!("front {:?}", v.front());
    println!("back {:?}", v.back())
}

#[test]
fn new_map_is_uniform() {
    let m = RiverMap::new(100, 10, 5, 33, 2, 5);
    assert_eq!(m.river_parts().len(), 10);
    for p in m.river_parts().iter() {
        assert_eq!(p.width, 33);
        assert_eq!(p.center_c, 50);
    }
    let f = m.front().unwrap();
    assert_eq!(f.width, 33);
    assert_eq!(f.center_c, 50);
}

#[test]
fn river_borders_are_clamped() {
    let m = RiverMap::new(100, 10, 5, 33, 2, 5);
    // centered channel: 50 - 16 .. 50 + 16
    let r = m.river_borders(&RiverPart::new(33, 50));
    assert_eq!(r.start, 34);
    assert_eq!(r.end, 66);
    // near the left edge the left border stops at zero
    let r = m.river_borders(&RiverPart::new(33, 3));
    assert_eq!(r.start, 0);
    assert_eq!(r.end, 19);
    // near the right edge the right border stops at the screen
    let r = m.river_borders(&RiverPart::new(33, 99));
    assert_eq!(r.start, 83);
    assert_eq!(r.end, 100);
}

#[test]
fn is_in_river_matches_borders() {
    let m = RiverMap::new(100, 10, 5, 33, 2, 5);
    let inside = riverraid::entities::Location::new(40, 0);
    let outside = riverraid::entities::Location::new(10, 0);
    assert!(m.is_in_river(&inside));
    assert!(!m.is_in_river(&outside));
    let r = m.river_borders_at(0);
    assert_eq!(r, m.river_borders_index(0));
}

#[test]
fn update_drifts_toward_fixed_target_without_overshoot() {
    let mut m = RiverMap::new(100, 10, 5, 33, 2, 5);
    // A fixed mode makes every regenerated target deterministic.
    m.change_river_mode(RiverMode::ConstWidthAndCenter { width: 13, center_c: 20 });
    // next_point starts at max_l = 10 and falls by 2 per update; the first
    // four updates keep the old target, which equals the initial front, so
    // the river stays put.
    for _ in 0..4 {
        m.update();
        let f = m.front().unwrap();
        assert_eq!(f.width, 33);
        assert_eq!(f.center_c, 50);
    }
    // The fifth update re-targets to (13, 20) and smooths a tenth of the
    // way, rounded up: width 33 -> 31, center 50 -> 47.
    m.update();
    let f = m.front().unwrap();
    assert_eq!(f.width, 31);
    assert_eq!(f.center_c, 47);
    // Every further step moves strictly closer and never overshoots.
    let mut prev_wgap = 31 - 13;
    let mut prev_cgap = 47 - 20;
    for _ in 0..100 {
        m.update();
        let f = m.front().unwrap();
        assert!(f.width >= 13);
        assert!(f.center_c >= 20);
        let wgap = f.width - 13;
        let cgap = f.center_c - 20;
        assert!(wgap <= prev_wgap);
        assert!(cgap <= prev_cgap);
        if prev_wgap > 0 {
            assert!(wgap < prev_wgap);
        }
        if prev_cgap > 0 {
            assert!(cgap < prev_cgap);
        }
        prev_wgap = wgap;
        prev_cgap = cgap;
    }
    let f = m.front().unwrap();
    assert_eq!(f.width, 13);
    assert_eq!(f.center_c, 20);
    assert_eq!(m.river_parts().len(), 10);
}

#[test]
fn random_targets_stay_within_center_drift() {
    // Map drift boundedness: with max_center_diff = 4 every regenerated
    // target center is within 4 of the current front center, so the front
    // line, which never overshoots the target, stays within 4 per step.
    let mut m = RiverMap::new(100, 10, 5, 33, 1, 4);
    let mut prev_center = m.front().unwrap().center_c;
    for _ in 0..500 {
        m.update();
        let c = m.front().unwrap().center_c;
        let diff = if c > prev_center { c - prev_center } else { prev_center - c };
        assert!(diff <= 4);
        prev_center = c;
    }
}

#[test]
fn restore_river_mode_returns_to_baseline() {
    let mut m = RiverMap::new(100, 10, 5, 33, 2, 5);
    m.change_river_mode(RiverMode::ConstWidthAndCenter { width: 7, center_c: 9 });
    match m.river_mode.value {
        RiverMode::ConstWidthAndCenter { width, center_c } => {
            assert_eq!(width, 7);
            assert_eq!(center_c, 9);
        },
        _ => panic!("mode was not changed"),
    }
    m.restore_river_mode();
    match m.river_mode.value {
        RiverMode::Random { min_width, max_width, max_center_diff } => {
            assert_eq!(min_width, 5);
            assert_eq!(max_width, 33);
            assert_eq!(max_center_diff, 5);
        },
        _ => panic!("mode was not restored"),
    }
}

#[test]
fn one_line_viewport_keeps_its_window() {
    let mut m = RiverMap::new(20, 1, 5, 6, 1, 2);
    for _ in 0..10 {
        m.update();
        assert_eq!(m.river_parts().len(), 1);
    }
}
