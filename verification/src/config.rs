use vstd::prelude::*;

verus! {

/// A bounding box in pixels for a rendition.
#[derive(Clone, Copy, Debug, PartialEq, Eq, Structural)]
pub struct BoxSize {
    pub width: u32,
    pub height: u32,
}

/// The configuration of one build, immutable for its duration: where the
/// source tree and the output tree are (as path components), the box that
/// thumbnails are resampled into, and the optional box for resampled main
/// renditions. When `resize` is absent, main renditions are verbatim copies.
#[derive(Debug)]
pub struct GalleryConfig {
    pub input_root: Vec<String>,
    pub output_root: Vec<String>,
    pub thumbnail: BoxSize,
    pub resize: Option<BoxSize>,
}

/// The configuration that a fresh gallery starts from: `input` for sources,
/// `_build` for output, 450 by 300 thumbnails, no main-rendition resize.
pub fn default_config() -> (c: GalleryConfig)
    ensures
        c.input_root.deep_view() =~= seq!["input"@],
        c.output_root.deep_view() =~= seq!["_build"@],
        c.thumbnail == (BoxSize { width: 450, height: 300 }),
        c.resize is None,
{
    let mut input_root: Vec<String> = Vec::new();
    input_root.push(String::from_str("input"));
    let mut output_root: Vec<String> = Vec::new();
    output_root.push(String::from_str("_build"));
    GalleryConfig {
        input_root,
        output_root,
        thumbnail: BoxSize { width: 450, height: 300 },
        resize: None,
    }
}

/// The file-name extensions accepted by default: `jpg` alone.
pub fn default_extensions() -> (exts: Vec<String>)
    ensures
        exts.deep_view() =~= seq!["jpg"@],
{
    let mut exts: Vec<String> = Vec::new();
    exts.push(String::from_str("jpg"));
    exts
}

} // verus!
