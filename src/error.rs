//! What can go wrong while fetching and preparing the panel's data.

use vstd::prelude::*;

verus! {

/// Why a fetch produced nothing for its slot.
#[derive(Clone, Copy, Debug, PartialEq, Eq, Structural)]
pub enum FetchError {
    /// The request could not be sent, or no response came back.
    Transport,
    /// The response did not have the expected shape: bad JSON, or image bytes
    /// that no decoder accepts.
    Decode,
    /// Well-formed data that breaks a documented convention, such as a
    /// repository url without its `repos/` marker.
    DataShapeViolation,
}

} // verus!
