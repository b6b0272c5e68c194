use lib::render::{format_timestamp, DrawLayer, PaneRef};

#[test]
fn format_timestamp_zero() {
    assert_eq!(format_timestamp(0), "00:00:00");
}

#[test]
fn format_timestamp_pads_and_wraps() {
    assert_eq!(format_timestamp(3_723_000), "01:02:03");
    assert_eq!(format_timestamp(86_399_999), "23:59:59");
    assert_eq!(format_timestamp(86_400_000), "00:00:00");
    assert_eq!(format_timestamp(1_700_000_000_000), "22:13:20");
}

#[test]
fn format_timestamp_max() {
    assert_eq!(format_timestamp(u64::MAX).len(), 8);
}

#[test]
fn tick_width_is_40_percent_of_bar_width() {
    let bar_width = 10.0f32;
    let tick_half = bar_width * 0.4;
    // The tick extends bar_width * 0.4 on each side from the center
    assert!((tick_half - 4.0).abs() < f32::EPSILON);
}

#[test]
fn pane_ref_and_layers() {
    let p = PaneRef { index: 1, pixel_offset: 200, pixel_height: 100 };
    assert_eq!(p.index + p.pixel_offset as usize + p.pixel_height as usize, 301);
    let layers = [DrawLayer::Grid, DrawLayer::Series];
    assert!(matches!(layers[0], DrawLayer::Grid));
}
