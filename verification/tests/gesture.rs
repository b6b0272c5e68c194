use lib::gesture::{EndGesture, GestureTracker, MoveGesture};

// The tracker stores what each touch holds; here its start position.
fn tracker() -> GestureTracker<(i32, i32)> {
    GestureTracker::new(2)
}

#[test]
fn tracker_starts_idle() {
    let t = tracker();
    assert_eq!(t.touch_count(), 0);
    assert!(!t.is_tracking());
    assert!(!t.is_panning());
}

#[test]
fn tracker_tap_candidate() {
    let mut t = tracker();
    assert!(!t.start(1, (100, 100)));
    assert!(t.is_tracking());
    let i = t.find(1).unwrap();
    assert_eq!(t.end_at(i), (false, EndGesture::TapCandidate));
    assert!(!t.is_tracking());
    assert_eq!(t.touch_count(), 0);
}

#[test]
fn tracker_pan_needs_distance() {
    let mut t = tracker();
    t.start(1, (100, 100));
    assert_eq!(t.move_gesture(false), MoveGesture::Nothing);
    assert!(!t.is_panning());
    assert_eq!(t.move_gesture(true), MoveGesture::Pan);
    assert!(t.is_panning());
    // Once started, every move pans.
    assert_eq!(t.move_gesture(false), MoveGesture::Pan);
    let i = t.find(1).unwrap();
    assert_eq!(t.end_at(i), (false, EndGesture::PanEnd));
    assert!(!t.is_panning());
}

#[test]
fn tracker_pinch_with_two_touches() {
    let mut t = tracker();
    assert!(!t.start(1, (100, 100)));
    assert!(t.start(2, (200, 200)));
    assert_eq!(t.move_gesture(true), MoveGesture::Pinch);
    let i = t.find(2).unwrap();
    assert_eq!(i, 1);
    // Lifting one of the two ends the pinch; a touch stays down.
    assert_eq!(t.end_at(i), (true, EndGesture::Nothing));
    assert!(t.is_tracking());
    assert_eq!(t.touches()[0].id, 1);
    let j = t.find(1).unwrap();
    assert_eq!(t.end_at(j), (false, EndGesture::TapCandidate));
}

#[test]
fn tracker_unknown_id() {
    let mut t = tracker();
    t.start(1, (0, 0));
    assert_eq!(t.find(7), None);
    assert_eq!(t.touch_count(), 1);
}

#[test]
fn tracker_three_touches_make_nothing() {
    let mut t = tracker();
    t.start(1, (0, 0));
    t.start(2, (0, 0));
    assert!(!t.start(3, (0, 0)));
    assert_eq!(t.move_gesture(true), MoveGesture::Nothing);
}

#[test]
fn tracker_update_and_reset() {
    let mut t = tracker();
    t.start(5, (1, 1));
    *t.touch_at_mut(0) = (9, 9);
    assert_eq!(t.touches()[0].touch, (9, 9));
    assert_eq!(t.touches()[0].id, 5);
    t.move_gesture(true);
    t.reset();
    assert_eq!(t.touch_count(), 0);
    assert!(!t.is_tracking());
    assert!(!t.is_panning());
}
