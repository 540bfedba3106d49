use tetris::timing::{level_of, line_score, lowering_micros, Stopwatch, MAX_LEVEL};

#[test]
fn level_rises_every_ten_lines() {
    assert_eq!(level_of(0, 0), 0);
    assert_eq!(level_of(0, 9), 0);
    assert_eq!(level_of(0, 10), 1);
    assert_eq!(level_of(0, 19), 1);
    assert_eq!(level_of(0, 289), 28);
    assert_eq!(level_of(0, 290), 29);
    assert_eq!(level_of(7, 35), 10);
}

#[test]
fn level_stops_at_twenty_nine() {
    assert_eq!(MAX_LEVEL, 29);
    assert_eq!(level_of(0, 300), 29);
    assert_eq!(level_of(0, u16::MAX), 29);
    assert_eq!(level_of(29, 0), 29);
    assert_eq!(level_of(29, u16::MAX), 29);
    assert_eq!(level_of(255, u16::MAX), 29);
    assert_eq!(level_of(200, 0), 29);
}

#[test]
fn level_never_falls_as_lines_grow() {
    for start in 0..=29u8 {
        let mut last = level_of(start, 0);
        for lines in (0..=u16::MAX).step_by(7) {
            let level = level_of(start, lines);
            assert!(level >= last);
            assert!(level <= 29);
            last = level;
        }
        assert_eq!(level_of(start, u16::MAX), 29);
    }
}

#[test]
fn lowering_time_by_level() {
    assert_eq!(lowering_micros(0), 800_000);
    assert_eq!(lowering_micros(1), 716_500);
    assert_eq!(lowering_micros(2), 633_000);
    assert_eq!(lowering_micros(3), 549_500);
    assert_eq!(lowering_micros(4), 466_000);
    assert_eq!(lowering_micros(5), 382_500);
    assert_eq!(lowering_micros(6), 299_000);
    assert_eq!(lowering_micros(7), 215_500);
    assert_eq!(lowering_micros(8), 132_000);
    assert_eq!(lowering_micros(9), 100_000);
    for level in 10..=12 {
        assert_eq!(lowering_micros(level), 83_000);
    }
    for level in 13..=15 {
        assert_eq!(lowering_micros(level), 67_000);
    }
    for level in 16..=18 {
        assert_eq!(lowering_micros(level), 50_000);
    }
    for level in 19..=28 {
        assert_eq!(lowering_micros(level), 33_000);
    }
    assert_eq!(lowering_micros(29), 17_000);
    assert_eq!(lowering_micros(30), 17_000);
    assert_eq!(lowering_micros(255), 17_000);
}

#[test]
fn points_for_lines_on_level_zero() {
    assert_eq!(line_score(1, 0), 40);
    assert_eq!(line_score(2, 0), 100);
    assert_eq!(line_score(3, 0), 300);
    assert_eq!(line_score(4, 0), 1200);
    assert_eq!(line_score(0, 0), 0);
    assert_eq!(line_score(5, 0), 0);
}

#[test]
fn points_grow_with_the_level() {
    for level in 0..=29u8 {
        let factor = level as u64 + 1;
        assert_eq!(line_score(1, level), 40 * factor);
        assert_eq!(line_score(2, level), 100 * factor);
        assert_eq!(line_score(3, level), 300 * factor);
        assert_eq!(line_score(4, level), 1200 * factor);
        assert_eq!(line_score(7, level), 0);
    }
    assert_eq!(line_score(4, 29), 36_000);
    assert_eq!(line_score(4, 255), 307_200);
}

#[test]
fn stopwatch_counts_only_while_running() {
    let mut watch = Stopwatch::new();
    assert!(!watch.is_running());
    assert_eq!(watch.elapsed(1_000), 0);
    watch.start(1_000);
    assert!(watch.is_running());
    assert_eq!(watch.elapsed(1_000), 0);
    assert_eq!(watch.elapsed(4_500), 3_500);
    watch.pause(5_000);
    assert!(!watch.is_running());
    assert_eq!(watch.elapsed(5_000), 4_000);
    assert_eq!(watch.elapsed(1_000_000), 4_000);
    watch.start(2_000_000);
    assert_eq!(watch.elapsed(2_000_250), 4_250);
}

#[test]
fn stopwatch_start_and_pause_twice() {
    let mut watch = Stopwatch::new();
    watch.pause(50);
    assert_eq!(watch.elapsed(60), 0);
    watch.start(100);
    watch.start(900);
    assert_eq!(watch.elapsed(1_000), 900);
    watch.pause(1_100);
    watch.pause(5_000);
    assert_eq!(watch.elapsed(9_000), 1_000);
}

#[test]
fn stopwatch_at_the_edges_of_time() {
    let mut watch = Stopwatch::new();
    watch.start(500);
    assert_eq!(watch.elapsed(100), 0);
    watch.pause(u64::MAX);
    assert_eq!(watch.elapsed(0), u64::MAX - 500);
    watch.start(0);
    assert_eq!(watch.elapsed(1_000), u64::MAX);
}
