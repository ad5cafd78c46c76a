//! Verified core of a screen-capture tool: rectangle geometry, locale tags,
//! window filtering, the scroll-stitching canvas and its frame decisions, the
//! long-capture loop and the long-capture coordinator state.

pub mod coordinator;
pub mod frame;
pub mod geometry;
pub mod locale;
pub mod long_capture;
pub mod stitch_search;
pub mod stitcher;
pub mod text;
pub mod window_catalog;
pub mod window_level;
