//! Keys of the domain-specific caches (axis ticks, geometry, grid lines,
//! indicator geometry, text layout). Floating-point inputs are stored by
//! their bit patterns, so that keys compare and hash exactly.

use vstd::prelude::*;
use vstd::std_specs::cmp::PartialEqSpecImpl;

verus! {

/// Which axis a tick cache entry belongs to.
#[derive(Debug, Clone, Copy, PartialEq, Eq, Hash, Structural)]
pub enum AxisType {
    Price,
    Time,
}

/// Cache key for axis tick positions.
#[derive(Debug, Clone, Copy, Hash)]
pub struct AxisKey {
    pub axis_type: AxisType,
    pub range_min_bits: u64,
    pub range_max_bits: u64,
    pub available_pixels_bits: u32,
    pub font_size_bits: u32,
}

impl PartialEq for AxisKey {
    fn eq(&self, other: &Self) -> (r: bool) {
        self.axis_type == other.axis_type && self.range_min_bits == other.range_min_bits && self.range_max_bits == other.range_max_bits && self.available_pixels_bits == other.available_pixels_bits && self.font_size_bits == other.font_size_bits
    }
}

impl Eq for AxisKey {}

impl PartialEqSpecImpl for AxisKey {
    open spec fn obeys_eq_spec() -> bool {
        true
    }

    open spec fn eq_spec(&self, other: &Self) -> bool {
        &&& self.axis_type == other.axis_type
        &&& self.range_min_bits == other.range_min_bits
        &&& self.range_max_bits == other.range_max_bits
        &&& self.available_pixels_bits == other.available_pixels_bits
        &&& self.font_size_bits == other.font_size_bits
    }
}


/// Cache key for series geometry (vertex data).
#[derive(Debug, Clone, Copy, Hash)]
pub struct GeometryKey {
    /// Series identifier.
    pub series_id: u32,
    /// Viewport hash (time range + price range).
    pub viewport_hash: u64,
    /// Data hash (content hash of the data slice).
    pub data_hash: u64,
}

impl PartialEq for GeometryKey {
    fn eq(&self, other: &Self) -> (r: bool) {
        self.series_id == other.series_id && self.viewport_hash == other.viewport_hash && self.data_hash == other.data_hash
    }
}

impl Eq for GeometryKey {}

impl PartialEqSpecImpl for GeometryKey {
    open spec fn obeys_eq_spec() -> bool {
        true
    }

    open spec fn eq_spec(&self, other: &Self) -> bool {
        &&& self.series_id == other.series_id
        &&& self.viewport_hash == other.viewport_hash
        &&& self.data_hash == other.data_hash
    }
}


/// Cache key for grid lines.
#[derive(Debug, Clone, Copy, Hash)]
pub struct GridKey {
    pub width: u32,
    pub height: u32,
    pub price_min_bits: u64,
    pub price_max_bits: u64,
    pub time_min_bits: u64,
    pub time_max_bits: u64,
}

impl PartialEq for GridKey {
    fn eq(&self, other: &Self) -> (r: bool) {
        self.width == other.width && self.height == other.height && self.price_min_bits == other.price_min_bits && self.price_max_bits == other.price_max_bits && self.time_min_bits == other.time_min_bits && self.time_max_bits == other.time_max_bits
    }
}

impl Eq for GridKey {}

impl PartialEqSpecImpl for GridKey {
    open spec fn obeys_eq_spec() -> bool {
        true
    }

    open spec fn eq_spec(&self, other: &Self) -> bool {
        &&& self.width == other.width
        &&& self.height == other.height
        &&& self.price_min_bits == other.price_min_bits
        &&& self.price_max_bits == other.price_max_bits
        &&& self.time_min_bits == other.time_min_bits
        &&& self.time_max_bits == other.time_max_bits
    }
}


/// Cache key for indicator geometry.
#[derive(Debug, Clone, Copy, Hash)]
pub struct IndicatorKey {
    pub indicator_id: u32,
    pub data_hash: u64,
    pub viewport_hash: u64,
}

impl PartialEq for IndicatorKey {
    fn eq(&self, other: &Self) -> (r: bool) {
        self.indicator_id == other.indicator_id && self.data_hash == other.data_hash && self.viewport_hash == other.viewport_hash
    }
}

impl Eq for IndicatorKey {}

impl PartialEqSpecImpl for IndicatorKey {
    open spec fn obeys_eq_spec() -> bool {
        true
    }

    open spec fn eq_spec(&self, other: &Self) -> bool {
        &&& self.indicator_id == other.indicator_id
        &&& self.data_hash == other.data_hash
        &&& self.viewport_hash == other.viewport_hash
    }
}


/// Cache key for formatted text.
#[derive(Debug, Clone, Hash)]
pub struct TextKey {
    pub text: String,
    pub font_size_bits: u32,
    pub color: [u8; 4],
}

impl PartialEq for TextKey {
    fn eq(&self, other: &Self) -> (r: bool) {
        let same_color = self.color[0] == other.color[0] && self.color[1] == other.color[1] && self.color[2]
            == other.color[2] && self.color[3] == other.color[3];
        proof {
            if same_color {
                assert(self.color@ =~= other.color@);
            } else {
                assert(self.color@ != other.color@) by {
                    if self.color@ == other.color@ {
                        assert(self.color@[0] == other.color@[0] && self.color@[1] == other.color@[1]);
                        assert(self.color@[2] == other.color@[2] && self.color@[3] == other.color@[3]);
                    }
                }
            }
        }
        self.text == other.text && self.font_size_bits == other.font_size_bits && same_color
    }
}

impl Eq for TextKey {}

impl PartialEqSpecImpl for TextKey {
    open spec fn obeys_eq_spec() -> bool {
        true
    }

    open spec fn eq_spec(&self, other: &Self) -> bool {
        &&& self.text@ == other.text@
        &&& self.font_size_bits == other.font_size_bits
        &&& self.color@ == other.color@
    }
}

} // verus!
