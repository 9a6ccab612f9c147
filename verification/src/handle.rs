//! Window identifiers and screen geometry as plain values.

use vstd::prelude::*;

verus! {

/// Identifier of a native window. It is a reference only: the engine never
/// owns or destroys the window behind it.
#[derive(Clone, Copy, Debug, PartialEq, Eq, Structural, Hash)]
pub struct WindowHandle {
    pub raw: u64,
}

impl WindowHandle {
    /// The handle that designates no window.
    pub fn null() -> (h: WindowHandle)
        ensures
            h.raw == 0,
    {
        WindowHandle { raw: 0 }
    }

    /// The handle with the given numeric identity.
    pub fn from_raw(raw: u64) -> (h: WindowHandle)
        ensures
            h.raw == raw,
    {
        WindowHandle { raw }
    }

    /// The numeric identity, as it crosses a serialization boundary.
    pub fn to_raw(self) -> (raw: u64)
        ensures
            raw == self.raw,
    {
        self.raw
    }

    pub open spec fn spec_is_null(self) -> bool {
        self.raw == 0
    }

    #[verifier::when_used_as_spec(spec_is_null)]
    pub fn is_null(self) -> (b: bool)
        ensures
            b == self.spec_is_null(),
    {
        self.raw == 0
    }
}

} // verus!
