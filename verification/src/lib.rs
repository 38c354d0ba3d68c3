//! Image transform pipeline: accepts a single image path, validates its
//! extension, classifies its dimensions against fixed thresholds,
//! conditionally resamples, derives an output path next to the input, and
//! reports a terminal outcome. The decision logic is verified; decoding and
//! saving happen at the caller's edge.

pub mod classify;
pub mod paths;
pub mod pipeline;
pub mod state;
