use vstd::prelude::*;

verus! {

/// Opaque identifier of a scene or of an entity.
///
/// A handle stays with its object for the object's whole life. The container
/// that issues handles counts upwards and never hands a number out twice, so
/// a handle of a deleted object can never come to name another one.
#[derive(Clone, Copy, Debug, PartialEq, Eq, Structural, Hash)]
pub struct Handle {
    pub raw: u64,
}

impl Handle {
    /// The handle that stands for the number `raw`.
    pub fn from_raw(raw: u64) -> (h: Handle)
        ensures
            h.raw == raw,
    {
        Handle { raw }
    }

    /// The number behind the handle.
    pub fn to_raw(&self) -> (raw: u64)
        ensures
            raw == self.raw,
    {
        self.raw
    }
}

} // verus!
