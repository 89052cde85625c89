//! The record that the metadata probe returns for one image file.

use vstd::prelude::*;

verus! {

/// Path and pixel dimensions of a probed image.
#[derive(Debug)]
pub struct ImageInfo {
    pub path: String,
    pub width: u32,
    pub height: u32,
}

impl ImageInfo {
    /// Packs the probe's observations into the record.
    pub fn new(path: String, width: u32, height: u32) -> (info: ImageInfo)
        ensures
            info.path@ == path@,
            info.width == width,
            info.height == height,
    {
        ImageInfo { path, width, height }
    }
}

} // verus!
