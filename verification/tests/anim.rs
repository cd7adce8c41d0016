use farmers_market::anim::{Animation, Clock, Rect};

/// One second, in microseconds.
const SECOND: u64 = 1_000_000;

/// The time at which the animations of these tests start.
const START: u64 = 7_250_000;

#[test]
fn new_uses_first_frame() {
    let v = vec![1, 2, 3];
    let anim = Animation::new(v, SECOND, START);
    assert_eq!(*anim.current(), 1);
}

#[test]
fn next_iters() {
    let v = vec![1, 2, 3];
    let mut anim = Animation::new(v.clone(), SECOND, START);
    for _i in 0..100 {
        for k in v.iter() {
            let c = *anim.current();
            assert_eq!(*k, c);
            assert_ne!(c, *anim.next());
        }
    }
}

#[test]
fn advance_many() {
    let v = vec![1, 2, 3];
    let mut anim = Animation::new(v.clone(), SECOND, START);
    for _i in 0..100 {
        anim.advance(3);
        anim.advance(1000000);
    }
}

#[test]
fn tick_at_advances() {
    let v = vec![1, 2, 3];
    let d = SECOND;
    let start = START;
    let mut anim = Animation::new(v.clone(), d, start);
    for _i in 0..100 {
        assert_eq!(*anim.tick_at(start), v[0]);
    }
    for i in 0..100 {
        let t = start + i * (d / 1000);
        assert_eq!(*anim.tick_at(t), v[0]);
    }
    let cases: Vec<(u64, usize)> = vec![
        (d - 1, 0),
        (d, 1),
        (2 * d, 2),
        (3 * d, 0),
        (6 * d, 0),
        (7 * d, 1),
        (60 * d, 0),
    ];
    for (when, want) in cases {
        let t = start + when;
        println!("d={:?} t={:?} frame={:?}", when, t, anim.current_index());
        let r = *anim.tick_at(t);
        assert_eq!(
            r, v[want],
            "wrong tick: d is {:?}, got {}, want {}",
            when, r, v[want]
        );
        assert_eq!(*anim.tick_at(start), v[want]);
    }
}

#[test]
fn reset_resets() {
    let v = vec![1, 2, 3];
    let mut anim = Animation::new(v, SECOND, START);
    assert_eq!(*anim.next(), 2);
    assert_eq!(*anim.reset(START + 5).current(), 1);
}

#[test]
fn advance_wraps_around_the_loop() {
    let mut anim = Animation::new(vec!['a', 'b', 'c', 'd'], 10, 0);
    assert_eq!(*anim.advance(6), 'c');
    assert_eq!(anim.current_index(), 2);
    assert_eq!(*anim.advance(0), 'c');
    assert_eq!(*anim.advance(2), 'a');
}

#[test]
fn tick_at_counts_whole_frame_lengths() {
    // The next frame is due at 100 + 30; at 200 three frames have come due:
    // those of 130, 160 and 190.
    let mut anim = Animation::new(vec![0, 1, 2, 3, 4], 30, 100);
    assert_eq!(*anim.tick_at(129), 0);
    assert_eq!(*anim.tick_at(200), 3);
    // The following frame is due at 220.
    assert_eq!(*anim.tick_at(219), 3);
    assert_eq!(*anim.tick_at(220), 4);
    assert_eq!(*anim.tick_at(250), 0);
}

#[test]
fn tick_at_an_earlier_time_changes_nothing() {
    let mut anim = Animation::new(vec![10, 20, 30], 1000, 5000);
    assert_eq!(*anim.tick_at(7000), 30);
    assert_eq!(*anim.tick_at(0), 30);
    assert_eq!(anim.current_index(), 2);
}

#[test]
fn reset_starts_the_frame_length_anew() {
    let mut anim = Animation::new(vec![10, 20, 30], 1000, 0);
    anim.advance(2);
    anim.reset(50_000);
    assert_eq!(anim.current_index(), 0);
    assert_eq!(*anim.tick_at(50_999), 10);
    assert_eq!(*anim.tick_at(51_000), 20);
}

#[test]
fn tick_follows_the_clock() {
    let clock = Clock::start();
    let frames = vec![0, 1, 2];
    let mut anim = Animation::new(frames.clone(), SECOND * 3600, clock.now());
    // Within the first hour the first frame stays.
    assert_eq!(*anim.tick(&clock), 0);
    let mut fast = Animation::new(frames.clone(), 1, 0);
    let shown = *fast.tick(&clock);
    assert!(frames.contains(&shown));
    assert_eq!(shown, frames[fast.current_index()]);
}

#[test]
fn from_sheet_full() {
    let bounds = Rect::new(0, 0, 3, 1);
    let mut anim = Animation::from_sheet(&bounds, 0, 1, 1, SECOND, START);
    let v = vec![
        Rect::new(0, 0, 1, 1),
        Rect::new(1, 0, 1, 1),
        Rect::new(2, 0, 1, 1),
    ];
    for r in v {
        assert_eq!(r, *anim.current());
        anim.next();
    }
    assert_eq!(anim.current_index(), 0);
}

#[test]
fn from_sheet_partial() {
    let bounds = Rect::new(0, 0, 5, 1);
    let mut anim = Animation::from_sheet(&bounds, 0, 2, 1, SECOND, START);
    let v = vec![Rect::new(0, 0, 2, 1), Rect::new(2, 0, 2, 1)];
    for r in v {
        assert_eq!(r, *anim.current());
        anim.next();
    }
    assert_eq!(anim.current_index(), 0);
}

#[test]
fn n_from_sheet_lays_the_tiles_side_by_side() {
    let mut anim = Animation::n_from_sheet(90, 54, 90, 4, SECOND, START);
    for i in 0..4 {
        let tile = *anim.current();
        assert_eq!(tile, Rect::new(54 * i, 90, 54, 90));
        assert_eq!(tile.width(), 54);
        assert_eq!(tile.height(), 90);
        anim.next();
    }
    assert_eq!(anim.current_index(), 0);
    let one = Animation::n_from_sheet(-3, u32::MAX, 0, 1, 1, 0);
    assert_eq!(*one.current(), Rect::new(0, -3, u32::MAX, 0));
}

#[test]
fn tick_at_before_the_next_frame_needs_no_room() {
    // The next frame is due at the very end of the timeline.
    let mut anim = Animation::new(vec![1, 2, 3], 100, u64::MAX - 100);
    assert_eq!(*anim.tick_at(u64::MAX - 1), 1);
    assert_eq!(*anim.tick_at(0), 1);
    assert_eq!(anim.current_index(), 0);
}

#[test]
fn a_rectangle_holds_what_it_can() {
    let plain = Rect::new(-11, 5, 50, 20);
    assert_eq!((plain.x, plain.y, plain.w, plain.h), (-11, 5, 50, 20));
    assert_eq!(plain.width(), 50);
    assert_eq!(plain.height(), 20);
    // No rectangle is empty.
    let empty = Rect::new(0, 0, 0, 0);
    assert_eq!((empty.x, empty.y, empty.w, empty.h), (0, 0, 1, 1));
    // Positions and sizes stop at half the range of `i32`.
    let far = Rect::new(i32::MIN, i32::MAX, u32::MAX, 0x4000_0000);
    assert_eq!(
        (far.x, far.y, far.w, far.h),
        (-0x4000_0000, 0x3fff_ffff, 0x3fff_ffff, 0x3fff_ffff)
    );
    let edge = Rect::new(-0x4000_0000, 0x3fff_ffff, 0x3fff_ffff, 1);
    assert_eq!(
        (edge.x, edge.y, edge.w, edge.h),
        (-0x4000_0000, 0x3fff_ffff, 0x3fff_ffff, 1)
    );
    let beyond = Rect::new(-0x4000_0001, 0x4000_0000, 2, 3);
    assert_eq!((beyond.x, beyond.y), (-0x4000_0000, 0x3fff_ffff));
}
