use lib::annotations::{DrawingId, HitResult, LabelPosition, MarkerId, MarkerPosition, MarkerShape, PriceLineId};

#[test]
fn hit_result_variants() {
    assert_ne!(HitResult::Miss, HitResult::Body);
    assert_ne!(HitResult::Miss, HitResult::ControlPoint(0));
    assert_ne!(HitResult::Body, HitResult::ControlPoint(0));
    assert_eq!(HitResult::ControlPoint(1), HitResult::ControlPoint(1));
    assert_ne!(HitResult::ControlPoint(0), HitResult::ControlPoint(1));
}

#[test]
fn ids_compare_by_text() {
    assert_eq!(DrawingId("tl-1".to_string()), DrawingId("tl-1".to_string()));
    assert_ne!(DrawingId("tl-1".to_string()), DrawingId("tl-2".to_string()));
    assert_eq!(MarkerId("buy".to_string()), MarkerId("buy".to_string()));
    assert_ne!(MarkerId("buy".to_string()), MarkerId("sell".to_string()));
    assert_eq!(PriceLineId("entry".to_string()), PriceLineId("entry".to_string()));
    assert_ne!(PriceLineId("entry".to_string()), PriceLineId("exit".to_string()));
}

#[test]
fn annotation_defaults() {
    assert_eq!(MarkerPosition::default(), MarkerPosition::AboveBar);
    assert_eq!(MarkerShape::default(), MarkerShape::Circle);
    assert_eq!(LabelPosition::default(), LabelPosition::Right);
}

use lib::annotations::{path_segment_count, time_in_window};

#[test]
fn path_segment_counts() {
    assert_eq!(path_segment_count(0, false), 0);
    assert_eq!(path_segment_count(1, true), 0);
    assert_eq!(path_segment_count(2, false), 1);
    assert_eq!(path_segment_count(2, true), 2);
    assert_eq!(path_segment_count(5, false), 4);
    assert_eq!(path_segment_count(5, true), 5);
}

#[test]
fn time_window_with_tolerance() {
    assert!(time_in_window(95, 100, 200, 10));
    assert!(!time_in_window(89, 100, 200, 10));
    assert!(time_in_window(210, 100, 200, 10));
    assert!(!time_in_window(211, 100, 200, 10));
    // Saturating bounds.
    assert!(time_in_window(0, 5, 10, 100));
    assert!(time_in_window(u64::MAX, u64::MAX - 1, u64::MAX - 1, 5));
}
