//! Verified core of a financial charting toolkit.

pub mod point_figure;
pub mod cache;
pub mod cache_keys;
pub mod input;
pub mod keyboard;
pub mod engine;
pub mod crosshair;
pub mod indicators;
pub mod annotations;
pub mod render;
pub mod drawing_set;
pub mod seq_search;
pub mod annotation_sets;
pub mod gesture;
