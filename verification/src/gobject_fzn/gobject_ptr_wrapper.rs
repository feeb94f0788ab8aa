//! The owning handle of a list model adapter.

use vstd::prelude::*;
use std::marker::PhantomData;
use crate::gobject_fzn::ref_count::RefCountCall;

verus! {

/// One owned reference to the GObject instance at an address, laid out as a
/// `T`. The address is never null.
///
/// The handle is the only way in which the rest of the program holds on to
/// the instance. It cannot be copied: a second handle comes from
/// [`GObjectPtrWrapper::share`], together with the call that pays for it.
pub struct GObjectPtrWrapper<T> {
    address: usize,
    layout: PhantomData<T>,
}

impl<T> GObjectPtrWrapper<T> {
    #[verifier::type_invariant]
    spec fn non_null(&self) -> bool {
        self.address != 0
    }

    /// The address of the instance.
    pub closed spec fn address(&self) -> usize {
        self.address
    }

    /// Adopts the reference that the caller owns to the instance at
    /// `address`. There is no handle to the null address.
    pub fn from_glib_full(address: usize) -> (handle: Option<Self>)
        ensures
            handle is Some <==> address != 0,
            handle is Some ==> handle->0.address() == address,
    {
        if address == 0 {
            None
        } else {
            Some(GObjectPtrWrapper { address, layout: PhantomData })
        }
    }

    /// The address of the instance, for a caller that only borrows it: the
    /// handle keeps its reference.
    pub fn to_glib_none(&self) -> (address: usize)
        ensures
            address == self.address(),
            address != 0,
    {
        proof {
            use_type_invariant(self);
        }
        self.address
    }

    /// Stops taking care of the instance and hands its address out. The
    /// reference is not given back: it belongs to the caller from now on.
    pub fn to_glib_full(self) -> (address: usize)
        ensures
            address == self.address(),
            address != 0,
    {
        proof {
            use_type_invariant(&self);
        }
        self.address
    }

    /// A second handle to the same instance, and the call that takes the
    /// reference it owns. The carried value is not touched.
    pub fn share(&self) -> (shared: (Self, RefCountCall))
        ensures
            shared.0.address() == self.address(),
            shared.1 == RefCountCall::Ref(self.address()),
    {
        proof {
            use_type_invariant(self);
        }
        (
            GObjectPtrWrapper { address: self.address, layout: PhantomData },
            RefCountCall::Ref(self.address),
        )
    }

    /// Ends the handle, and says which call gives its reference back.
    pub fn release(self) -> (call: RefCountCall)
        ensures
            call == RefCountCall::Unref(self.address()),
    {
        RefCountCall::Unref(self.address)
    }
}

} // verus!
