//! The ways in which an operation of the rendering layer can fail.

use vstd::prelude::*;

verus! {

#[derive(Clone, Debug, PartialEq, Eq)]
pub enum GfxError {
    /// The device handed back the null handle instead of a new object.
    ResourceCreationFailure,
    /// A shader stage did not compile. Carries the device's diagnostic log.
    CompileError(String),
    /// A shader program did not link. Carries the device's diagnostic log.
    LinkError(String),
    /// A sprite batch operation was called out of the begin, draw, end
    /// order.
    InvalidState,
    /// The staging array of a sprite batch has no room for another quad.
    CapacityExceeded,
}

} // verus!
