//! The interface handle: an object's address together with the interface
//! it is held through.
use crate::guids::Guid;
use vstd::prelude::*;

verus! {

/// A handle on one interface of a component.
///
/// The address is either zero, and the handle is *empty*, or that of a live
/// object. The handle does not count references: whoever made it answers
/// for the object's lifetime.
#[derive(Clone, Copy, Debug, PartialEq, Eq, Structural, Hash)]
pub struct BinaryHandle {
    pub ptr: usize,
    pub iid: Guid,
}

impl BinaryHandle {
    /// Wraps an address as a handle on the given interface. Nothing is
    /// checked: the caller vouches for the address.
    pub fn from_raw(ptr: usize, iid: Guid) -> (r: BinaryHandle)
        ensures
            r.ptr == ptr,
            r.iid == iid,
    {
        BinaryHandle { ptr, iid }
    }

    /// An empty handle on the given interface.
    pub fn empty(iid: Guid) -> (r: BinaryHandle)
        ensures
            r.ptr == 0,
            r.iid == iid,
    {
        BinaryHandle { ptr: 0, iid }
    }

    /// The object's address, for calls that take one.
    pub fn as_ptr(&self) -> (r: usize)
        ensures
            r == self.ptr,
    {
        self.ptr
    }

    /// The interface that the handle is held through.
    pub fn iid(&self) -> (r: Guid)
        ensures
            r == self.iid,
    {
        self.iid
    }

    /// Whether the handle is empty.
    #[verifier::when_used_as_spec(spec_is_null)]
    pub fn is_null(&self) -> (r: bool)
        ensures
            r == self.is_null(),
    {
        self.ptr == 0
    }

    pub open spec fn spec_is_null(&self) -> bool {
        self.ptr == 0
    }
}

} // verus!
