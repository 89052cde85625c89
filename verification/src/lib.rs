//! Feature-based image alignment.
//!
//! The library registers a set of photographs against a reference frame so
//! that later stacking can treat every frame as pixel-aligned. It holds the
//! decision-making core of the pipeline: matcher selection, the
//! nearest-neighbour ratio test, correspondence validation, output-path
//! derivation, the per-candidate state machine and the diagnostic trail.
//! Pixel work (decoding, feature detection, transform fitting, warping,
//! encoding) is left to the hosting application, which feeds its plain-value
//! observations into the functions here.

pub mod diagnostics;
pub mod info;
pub mod matching;
pub mod paths;
pub mod pipeline;
pub mod selection;
pub mod text;
