//! The resolution artifact descriptor.
//!
//! A locator produces exactly one candidate; the process delegate consumes
//! it once. A candidate is immutable after construction.

use vstd::prelude::*;

verus! {

/// How the artifact is run: through the scripting runtime, or directly.
#[derive(Clone, Copy, PartialEq, Eq, Structural, Debug)]
pub enum ArtifactKind {
    Script,
    NativeExecutable,
}

/// Which tier of the fallback chain produced the artifact.
#[derive(Clone, Copy, PartialEq, Eq, Structural, Debug)]
pub enum Origin {
    LocalProject,
    Cache,
    Bundled,
}

/// A runnable artifact: its kind, its filesystem path, and its origin.
pub struct Candidate {
    /// How to run the artifact.
    pub kind: ArtifactKind,
    /// Where the artifact lies, as path components.
    pub path: Vec<String>,
    /// Which strategy found it.
    pub origin: Origin,
}

} // verus!
