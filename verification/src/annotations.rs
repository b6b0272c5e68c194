//! Identifiers and kinds of chart annotations: drawings, markers and price
//! lines, and the result of hit-testing a drawing.

use vstd::prelude::*;
use vstd::std_specs::cmp::PartialEqSpecImpl;

verus! {

/// Unique identifier for a drawing.
#[derive(Debug, Clone, Hash)]
pub struct DrawingId(pub String);

impl PartialEq for DrawingId {
    fn eq(&self, other: &Self) -> (r: bool) {
        self.0 == other.0
    }
}

impl Eq for DrawingId {}

impl PartialEqSpecImpl for DrawingId {
    open spec fn obeys_eq_spec() -> bool {
        true
    }

    open spec fn eq_spec(&self, other: &Self) -> bool {
        self.0@ == other.0@
    }
}

/// Unique identifier for a marker.
#[derive(Debug, Clone, Hash)]
pub struct MarkerId(pub String);

impl PartialEq for MarkerId {
    fn eq(&self, other: &Self) -> (r: bool) {
        self.0 == other.0
    }
}

impl Eq for MarkerId {}

impl PartialEqSpecImpl for MarkerId {
    open spec fn obeys_eq_spec() -> bool {
        true
    }

    open spec fn eq_spec(&self, other: &Self) -> bool {
        self.0@ == other.0@
    }
}

/// Unique identifier for a price line.
#[derive(Debug, Clone, Hash)]
pub struct PriceLineId(pub String);

impl PartialEq for PriceLineId {
    fn eq(&self, other: &Self) -> (r: bool) {
        self.0 == other.0
    }
}

impl Eq for PriceLineId {}

impl PartialEqSpecImpl for PriceLineId {
    open spec fn obeys_eq_spec() -> bool {
        true
    }

    open spec fn eq_spec(&self, other: &Self) -> bool {
        self.0@ == other.0@
    }
}

/// Position of a marker relative to the candle.
#[derive(Debug, Clone, Copy, PartialEq, Eq, Structural)]
pub enum MarkerPosition {
    /// Above the candle (typically for sell signals).
    AboveBar,
    /// Below the candle (typically for buy signals).
    BelowBar,
    /// At the candle's close price.
    AtPrice,
}

impl Default for MarkerPosition {
    fn default() -> (r: Self)
        ensures
            r == MarkerPosition::AboveBar,
    {
        MarkerPosition::AboveBar
    }
}

/// Shape of a marker.
#[derive(Debug, Clone, Copy, PartialEq, Eq, Structural)]
pub enum MarkerShape {
    Circle,
    Square,
    ArrowUp,
    ArrowDown,
    Triangle,
}

impl Default for MarkerShape {
    fn default() -> (r: Self)
        ensures
            r == MarkerShape::Circle,
    {
        MarkerShape::Circle
    }
}

/// Position of a price line's label.
#[derive(Debug, Clone, Copy, PartialEq, Eq, Structural)]
pub enum LabelPosition {
    Left,
    Right,
    Center,
}

impl Default for LabelPosition {
    fn default() -> (r: Self)
        ensures
            r == LabelPosition::Right,
    {
        LabelPosition::Right
    }
}

/// Result of a hit-test against a drawing.
#[derive(Debug, Clone, Copy, PartialEq, Eq, Structural)]
pub enum HitResult {
    /// The point is not near the drawing.
    Miss,
    /// Hit on the drawing body (line, shape interior, ...).
    Body,
    /// Hit on a control point (endpoint, handle, vertex).
    ControlPoint(usize),
}

/// Number of segments of a path through `point_count` points: none below
/// two points, one per point when the path is closed, otherwise one fewer.
pub fn path_segment_count(point_count: usize, closed: bool) -> (r: usize)
    ensures
        point_count < 2 ==> r == 0,
        point_count >= 2 && closed ==> r == point_count,
        point_count >= 2 && !closed ==> r == point_count - 1,
{
    if point_count < 2 {
        0
    } else if closed {
        point_count
    } else {
        point_count - 1
    }
}

/// Whether timestamp `ts` lies in `[start - tolerance, end + tolerance]`,
/// where the widened bounds saturate at 0 and at `u64::MAX`: the time half of
/// the default bounding-box hit test.
pub fn time_in_window(ts: u64, start: u64, end: u64, tolerance: u64) -> (r: bool)
    ensures
        r == (ts + tolerance >= start && ts <= end + tolerance),
{
    ts >= start.saturating_sub(tolerance) && ts <= end.saturating_add(tolerance)
}

} // verus!
