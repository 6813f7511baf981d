//! The two terminal failures of an export.

use vstd::prelude::*;

verus! {

/// Why an export aborts.  The pipeline is deterministic, so retrying
/// without changed input cannot succeed; no partial output is produced.
#[derive(Clone, Copy, Debug, PartialEq, Eq, Structural)]
pub enum VoxelifyError {
    /// The scene metadata cannot be converted to text: a vertex position
    /// (and so possibly a declared bound) is a non-finite value.
    SerializationError,
    /// The computed total container length exceeds the format's 32-bit
    /// length field.
    SizeError,
}

} // verus!
