//! Technical indicator descriptors: the parameters and names of the
//! indicators, and where they render.

use vstd::prelude::*;

verus! {

/// Maximum length of an indicator's input and output series.
pub const MAX_SERIES_LEN: usize = 100_000;

/// Whether an indicator renders as an overlay on an existing pane or in a
/// separate pane of its own.
#[derive(Debug, Clone, Copy, PartialEq, Eq, Structural)]
pub enum OverlayMode {
    /// Render as an overlay on the given pane.
    OverlayOnPane(usize),
    /// Render in a separate (new) pane.
    SeparatePane,
}

/// How a price scale maps prices to heights.
#[derive(Debug, Clone, Copy, PartialEq, Eq, Structural)]
pub enum PriceScaleMode {
    /// Linear.
    Normal,
    /// Logarithmic.
    Logarithmic,
    /// Fixed, not rescaled to the data.
    Locked,
}

/// Where an indicator renders unless it says otherwise: over the main
/// chart, pane 0.
pub fn default_overlay_mode() -> (r: OverlayMode)
    ensures
        r == OverlayMode::OverlayOnPane(0),
{
    OverlayMode::OverlayOnPane(0)
}

/// The price scale mode an indicator prefers unless it says otherwise:
/// linear.
pub fn default_scale_mode() -> (r: PriceScaleMode)
    ensures
        r == PriceScaleMode::Normal,
{
    PriceScaleMode::Normal
}

/// Simple moving average of the close over `period` bars.
pub struct Sma {
    pub period: usize,
}

/// Exponential moving average of the close, seeded with the simple average
/// of the first `period` bars.
pub struct Ema {
    pub period: usize,
}

/// Average True Range with Wilder's smoothing over `period` bars.
pub struct Atr {
    pub period: usize,
}

/// Average Directional Index (trend strength, 0 to 100) over `period` bars.
pub struct Adx {
    pub period: usize,
}

/// Commodity Channel Index over `period` bars.
pub struct Cci {
    pub period: usize,
}

/// Volume Weighted Average Price, reset at gaps of more than a day.
pub struct Vwap;

/// Heikin Ashi smoothed close.
pub struct HeikinAshi;

impl Sma {
    pub fn name(&self) -> (r: &'static str)
        ensures
            r@ == "SMA"@,
    {
        "SMA"
    }
}

impl Ema {
    pub fn name(&self) -> (r: &'static str)
        ensures
            r@ == "EMA"@,
    {
        "EMA"
    }
}

impl Atr {
    pub fn name(&self) -> (r: &'static str)
        ensures
            r@ == "ATR"@,
    {
        "ATR"
    }
}

impl Adx {
    pub fn name(&self) -> (r: &'static str)
        ensures
            r@ == "ADX"@,
    {
        "ADX"
    }
}

impl Cci {
    /// A CCI with the default period of 20.
    pub fn default_period() -> (r: Self)
        ensures
            r.period == 20,
    {
        Cci { period: 20 }
    }

    pub fn name(&self) -> (r: &'static str)
        ensures
            r@ == "CCI"@,
    {
        "CCI"
    }
}

impl Vwap {
    pub fn name(&self) -> (r: &'static str)
        ensures
            r@ == "VWAP"@,
    {
        "VWAP"
    }
}

impl HeikinAshi {
    pub fn name(&self) -> (r: &'static str)
        ensures
            r@ == "Heikin Ashi"@,
    {
        "Heikin Ashi"
    }
}

/// Gap, in timestamp units, beyond which the volume-weighted average starts
/// a new session.
pub const SESSION_GAP: u64 = 86_400;

/// Whether a bar at `ts` that follows a bar at `prev_ts` starts a new
/// session: the gap between them (0 when `ts` is not later) exceeds a day.
pub fn starts_new_session(prev_ts: u64, ts: u64) -> (r: bool)
    ensures
        r == (ts > prev_ts && ts - prev_ts > SESSION_GAP),
{
    ts.saturating_sub(prev_ts) > SESSION_GAP
}

} // verus!
