use curves::segment::{Arc, Line, Segment};
use curves::trail::{Motion, Trail, Turn};
use std::f32::consts::{PI, TAU};

type P = (f32, f32);

fn straight(to: P) -> Motion<P, f32> {
    Motion::Straight { to }
}

fn turn_after(trail: &Trail<P, f32>, center: P, radius: f32, sweep: f32) -> Motion<P, f32> {
    let (same_center, total) = match trail.last().and_then(|s| s.as_arc()) {
        Some(a) => {
            let d = ((a.center.0 - center.0).powi(2) + (a.center.1 - center.1).powi(2)).sqrt();
            (d < 0.001, a.angle + sweep)
        }
        None => (false, sweep),
    };
    Motion::Turn(Turn { center, radius, sweep, same_center, total, full_turn: total.abs() >= TAU })
}

#[test]
fn new_trail_is_empty() {
    let t: Trail<P, f32> = Trail::new();
    assert_eq!(t.len(), 0);
    assert_eq!(t.tail(), None);
    assert!(t.last().is_none());
}

#[test]
fn straight_run_leaves_one_line() {
    let mut t: Trail<P, f32> = Trail::new();
    let mut pos: P = (0.0, 0.0);
    for _ in 0..10 {
        let next = (pos.0 + 2.0, pos.1);
        t.step(pos, straight(next));
        pos = next;
    }
    assert_eq!(t.len(), 1);
    assert_eq!(t.tail(), Some(0));
    let l = t.segment(0).as_line().unwrap();
    assert_eq!(l.from, (0.0, 0.0));
    assert_eq!(l.to, (20.0, 0.0));
}

#[test]
fn still_tick_changes_nothing() {
    let mut t: Trail<P, f32> = Trail::new();
    t.step((0.0, 0.0), Motion::Still);
    assert_eq!(t.len(), 0);
    t.step((0.0, 0.0), straight((1.0, 0.0)));
    t.step((1.0, 0.0), Motion::Still);
    assert_eq!(t.len(), 1);
    assert_eq!(t.segment(0).as_line().unwrap().to, (1.0, 0.0));
}

#[test]
fn turn_after_line_appends_arc_and_line_after_arc() {
    let mut t: Trail<P, f32> = Trail::new();
    t.step((0.0, 0.0), straight((1.0, 0.0)));
    let m = turn_after(&t, (1.0, 10.0), 10.0, 0.1);
    t.step((1.0, 0.0), m);
    assert_eq!(t.len(), 2);
    let a = t.segment(1).as_arc().unwrap();
    assert_eq!(a.from, (1.0, 0.0));
    assert_eq!(a.center, (1.0, 10.0));
    assert_eq!(a.radius, 10.0);
    assert_eq!(a.angle, 0.1);
    t.step((2.0, 0.1), straight((3.0, 0.2)));
    assert_eq!(t.len(), 3);
    let l = t.segment(2).as_line().unwrap();
    assert_eq!(l.from, (2.0, 0.1));
    assert_eq!(l.to, (3.0, 0.2));
    // the first line is untouched
    assert_eq!(t.segment(0).as_line().unwrap().to, (1.0, 0.0));
}

#[test]
fn turn_accumulates_then_splits_at_full_turn() {
    let mut t: Trail<P, f32> = Trail::new();
    let center: P = (0.0, 10.0);
    let sweep: f32 = 0.9;
    let mut lengths = Vec::new();
    for k in 0..10 {
        let m = turn_after(&t, center, 10.0, sweep);
        let prev = (k as f32, 0.0);
        t.step(prev, m);
        lengths.push(t.len());
    }
    // six ticks stay under a full turn; the seventh would reach it
    assert_eq!(lengths, vec![1, 1, 1, 1, 1, 1, 2, 2, 2, 2]);
    let first = t.segment(0).as_arc().unwrap();
    assert!((first.angle - 6.0 * sweep).abs() < 1e-5);
    assert_eq!(first.from, (0.0, 0.0));
    let second = t.segment(1).as_arc().unwrap();
    assert_eq!(second.from, (6.0, 0.0));
    assert!((second.angle - 4.0 * sweep).abs() < 1e-5);
}

#[test]
fn turn_about_new_center_starts_new_arc() {
    let mut t: Trail<P, f32> = Trail::new();
    let m = turn_after(&t, (0.0, 10.0), 10.0, 0.1);
    t.step((0.0, 0.0), m);
    let m = turn_after(&t, (0.0, -10.0), 10.0, -0.1);
    t.step((1.0, 0.0), m);
    assert_eq!(t.len(), 2);
    let a = t.segment(1).as_arc().unwrap();
    assert_eq!(a.center, (0.0, -10.0));
    assert_eq!(a.angle, -0.1);
    assert_eq!(t.segment(0).as_arc().unwrap().angle, 0.1);
}

#[test]
fn touched_lists_accepted_indices_in_order() {
    let mut t: Trail<P, f32> = Trail::new();
    t.step((0.0, 0.0), straight((1.0, 0.0)));
    let m = turn_after(&t, (1.0, 1.0), 1.0, 0.5);
    t.step((1.0, 0.0), m);
    t.step((2.0, 1.0), straight((3.0, 1.0)));
    assert_eq!(t.len(), 3);
    let lines = t.touched(|s: Segment<P, f32>| s.is_line());
    assert_eq!(lines, vec![0, 2]);
    let none = t.touched(|_s: Segment<P, f32>| false);
    assert!(none.is_empty());
}

#[test]
fn collided_flags_only_grow() {
    let mut t: Trail<P, f32> = Trail::new();
    t.step((0.0, 0.0), straight((1.0, 0.0)));
    let m = turn_after(&t, (1.0, 1.0), 1.0, 0.5);
    t.step((1.0, 0.0), m);
    assert!(!t.is_collided(0));
    assert!(!t.is_collided(1));
    t.mark_collided(&vec![1, 7]);
    assert!(!t.is_collided(0));
    assert!(t.is_collided(1));
    t.mark_collided(&vec![]);
    assert!(t.is_collided(1));
    // extending a flagged segment keeps its flag; a new segment starts clear
    let m = turn_after(&t, (1.0, 1.0), 1.0, 0.5);
    t.step((1.5, 0.1), m);
    assert_eq!(t.len(), 2);
    assert!(t.is_collided(1));
    t.step((1.8, 0.4), straight((2.0, 1.0)));
    assert!(!t.is_collided(2));
}

#[test]
fn segment_kinds() {
    let l: Segment<P, f32> = Segment::Line(Line { from: (0.0, 0.0), to: (1.0, 1.0) });
    let a: Segment<P, f32> =
        Segment::Arc(Arc { from: (1.0, 0.0), center: (0.0, 0.0), radius: 1.0, angle: PI });
    assert!(l.is_line() && !l.is_arc());
    assert!(a.is_arc() && !a.is_line());
    assert!(l.as_arc().is_none());
    assert!(a.as_line().is_none());
    assert_eq!(a.as_arc().unwrap().angle, PI);
    assert_eq!(l.as_line().unwrap().to, (1.0, 1.0));
}
