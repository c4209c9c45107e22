use vstd::prelude::*;

verus! {

/// A scanned entry whose path has no leading component to strip: its mirrored
/// destination cannot be computed. Per-entry; the scan skips the entry.
#[derive(Clone, Copy, Debug, PartialEq, Eq, Structural)]
pub struct PathError;

/// A decode, resample or encode failure in the image codec, or an extension
/// the codec has no format for. Per-task; one task's failure does not stop
/// its siblings.
#[derive(Clone, Copy, Debug, PartialEq, Eq, Structural)]
pub struct CodecError;

} // verus!
