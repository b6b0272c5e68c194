use lib::cache::Cache;
use lib::cache_keys::{AxisKey, AxisType, GeometryKey, GridKey, IndicatorKey, TextKey};

fn geometry_key(series_id: u32, vp: u64, data: u64) -> GeometryKey {
    GeometryKey { series_id, viewport_hash: vp, data_hash: data }
}

#[test]
fn geometry_keys_compare_by_fields() {
    assert_eq!(geometry_key(1, 2, 3), geometry_key(1, 2, 3));
    assert_ne!(geometry_key(1, 2, 3), geometry_key(1, 2, 4));
}

#[test]
fn geometry_cache_invalidate_series() {
    let mut cache = Cache::new(16);
    cache.insert(geometry_key(1, 1, 1), 'x');
    cache.insert(geometry_key(1, 2, 2), 'y');
    cache.insert(geometry_key(2, 1, 1), 'z');
    cache.invalidate_where(|k| k.series_id == 1);
    assert_eq!(cache.len(), 1);
    assert!(cache.get(&geometry_key(2, 1, 1)).is_some());
}

#[test]
fn text_keys_compare_text_size_and_color() {
    let a = TextKey { text: "hello".to_string(), font_size_bits: 14.0f32.to_bits(), color: [255; 4] };
    let b = TextKey { text: "hello".to_string(), font_size_bits: 14.0f32.to_bits(), color: [255; 4] };
    let c = TextKey { text: "hello".to_string(), font_size_bits: 14.0f32.to_bits(), color: [255, 0, 255, 255] };
    let d = TextKey { text: "world".to_string(), font_size_bits: 14.0f32.to_bits(), color: [255; 4] };
    assert_eq!(a, b);
    assert_ne!(a, c);
    assert_ne!(a, d);
}

#[test]
fn text_cache_eviction_when_full() {
    let key = |t: &str| TextKey { text: t.to_string(), font_size_bits: 0, color: [0; 4] };
    let mut cache = Cache::new(2);
    cache.insert(key("a"), 1);
    cache.insert(key("b"), 2);
    cache.insert(key("c"), 3);
    assert_eq!(cache.len(), 2);
    assert!(cache.get(&key("a")).is_none());
}

#[test]
fn axis_and_grid_and_indicator_keys() {
    let a = AxisKey {
        axis_type: AxisType::Price,
        range_min_bits: 0f64.to_bits(),
        range_max_bits: 100f64.to_bits(),
        available_pixels_bits: 500f32.to_bits(),
        font_size_bits: 14f32.to_bits(),
    };
    let mut b = a.clone();
    assert_eq!(a, b);
    b.axis_type = AxisType::Time;
    assert_ne!(a, b);
    let g = GridKey { width: 800, height: 600, price_min_bits: 1, price_max_bits: 2, time_min_bits: 3, time_max_bits: 4 };
    assert_eq!(g.clone(), g);
    let i = IndicatorKey { indicator_id: 1, data_hash: 0, viewport_hash: 0 };
    assert_ne!(i, IndicatorKey { indicator_id: 2, data_hash: 0, viewport_hash: 0 });
}
