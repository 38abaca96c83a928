use motion_profile::{RampCursor, RampPoint, StepResult, StraightClock, StraightMove};

#[test]
fn ramp_emits_samples_then_end() {
    let mut c = RampCursor::new(3);
    assert_eq!(c.step_count(), 3);
    assert_eq!(c.advance(), Some(RampPoint::Sample(0)));
    assert_eq!(c.advance(), Some(RampPoint::Sample(1)));
    assert_eq!(c.advance(), Some(RampPoint::Sample(2)));
    assert!(!c.is_exhausted());
    assert_eq!(c.advance(), Some(RampPoint::End));
    assert!(c.is_exhausted());
    assert_eq!(c.advance(), None);
    assert_eq!(c.advance(), None);
}

#[test]
fn ramp_without_steps_emits_only_end() {
    let mut c = RampCursor::new(0);
    assert_eq!(c.advance(), Some(RampPoint::End));
    assert_eq!(c.advance(), None);
}

#[test]
fn ramp_count_is_steps_plus_one() {
    // one second at a 1 ms step
    let points = RampCursor::new(1000).drain_points();
    assert_eq!(points.len(), 1001);
    assert_eq!(points[0], RampPoint::Sample(0));
    assert_eq!(points[999], RampPoint::Sample(999));
    assert_eq!(points[1000], RampPoint::End);
    assert_eq!(points.iter().filter(|p| **p == RampPoint::End).count(), 1);
}

#[test]
fn ramp_drain_after_some_points() {
    let mut c = RampCursor::new(4);
    c.advance();
    c.advance();
    let rest = c.drain_points();
    assert_eq!(rest, vec![RampPoint::Sample(2), RampPoint::Sample(3), RampPoint::End]);
    assert!(c.is_exhausted());
    assert!(c.drain_points().is_empty());
}

#[test]
fn pivot_tag_follows_point() {
    let r = StepResult::from_point(RampPoint::Sample(7), 'a');
    assert_eq!(r, StepResult::Continue('a'));
    assert!(!r.is_done());
    let r = StepResult::from_point(RampPoint::End, 'b');
    assert_eq!(r, StepResult::Done('b'));
    assert!(r.is_done());
    assert_eq!(r.into_sample(), 'b');
}

#[test]
fn pivot_tags_have_one_done_last() {
    let tags: Vec<StepResult<usize>> = RampCursor::new(5)
        .drain_points()
        .into_iter()
        .enumerate()
        .map(|(i, p)| StepResult::from_point(p, i))
        .collect();
    assert_eq!(tags.len(), 6);
    assert_eq!(tags.iter().filter(|t| t.is_done()).count(), 1);
    assert_eq!(tags[5], StepResult::Done(5));
}

#[test]
fn straight_clock_integrates_then_snaps() {
    let mut c = StraightClock::new(2);
    assert_eq!(c.remaining(), 2);
    assert_eq!(c.advance(), StraightMove::Integrate);
    assert_eq!(c.advance(), StraightMove::Integrate);
    assert!(!c.is_finished());
    assert_eq!(c.advance(), StraightMove::Snap);
    assert!(c.is_finished());
}

#[test]
fn straight_clock_without_steps_snaps_at_once() {
    assert_eq!(StraightClock::new(0).drain_moves(), vec![StraightMove::Snap]);
}

#[test]
fn straight_clock_count() {
    // 2 * 10 / (1 + 2) s at a 1 ms step: 6666 steps
    let moves = StraightClock::new(6666).drain_moves();
    assert_eq!(moves.len(), 6667);
    assert_eq!(moves.iter().filter(|m| **m == StraightMove::Snap).count(), 1);
    assert_eq!(moves[6666], StraightMove::Snap);
}

#[test]
fn straight_clock_distance_reached_early() {
    let mut c = StraightClock::new(5);
    assert_eq!(c.advance(), StraightMove::Integrate);
    c.reach_distance();
    assert_eq!(c.remaining(), 0);
    assert!(!c.is_finished());
    assert_eq!(c.advance(), StraightMove::Snap);
    assert!(c.is_finished());
}
