//! Non-fatal warnings raised while assembling toolpaths.
use vstd::prelude::*;

verus! {

/// What a non-fatal assembly warning is about.
#[derive(Clone, Copy, Debug, PartialEq, Eq, Structural)]
pub enum AssemblyWarningKind {
    /// A whole face failed to assemble; the other faces went on.
    FaceFailed,
    /// One region of a face failed; the other regions were still cleared.
    RegionFailed,
}

/// A non-fatal warning: the affected face or region is skipped and the
/// rest of the part is still machined.
#[derive(Debug)]
pub struct AssemblyWarning {
    /// What failed.
    pub kind: AssemblyWarningKind,
    /// The face: `""` is the default face, `"1"`, `"2"`, ... the others.
    pub face_id: String,
    /// The region within the face; `None` for a whole face.
    pub region: Option<usize>,
    /// The assembler's own diagnostic, not meant for translation.
    pub detail: String,
}

} // verus!
