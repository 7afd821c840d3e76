//! Responses related to sources.

use vstd::prelude::*;

verus! {

/// Response value for whether a single source is active.
#[derive(Clone, Copy, Debug, PartialEq, Eq, Structural)]
pub struct SourceActive {
    /// Whether the source is showing in program.
    pub active: bool,
    /// Whether the source is showing in the UI (preview, projector, properties).
    pub showing: bool,
}

} // verus!
