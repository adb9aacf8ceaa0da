//! Opaque, non-null identifiers of native hypervisor resources.

use core::marker::PhantomData;
use vstd::prelude::*;

verus! {

/// Tag of a handle that denotes a session with the hypervisor.
#[derive(Debug)]
pub struct Session;

/// Tag of a handle that denotes one virtual machine.
#[derive(Debug)]
pub struct Machine;

/// The address of a live native resource, tagged with the kind of resource.
///
/// A handle is never null and cannot be duplicated: a second owner of the same
/// resource has to be obtained through the native reference count.
#[derive(Debug)]
pub struct Handle<K> {
    addr: usize,
    kind: PhantomData<K>,
}

impl<K> Handle<K> {
    #[verifier::type_invariant]
    spec fn non_null(self) -> bool {
        self.addr != 0
    }

    /// The native address that this handle stands for.
    pub closed spec fn addr(self) -> usize {
        self.addr
    }

    /// Takes ownership of what a native acquisition call returned.
    /// A null address is no resource and gives no handle.
    pub(crate) fn new(raw: usize) -> (r: Option<Handle<K>>)
        ensures
            raw == 0 <==> r is None,
            r is Some ==> r->0.addr() == raw,
    {
        if raw == 0 {
            None
        } else {
            Some(Handle { addr: raw, kind: PhantomData })
        }
    }

    /// The address to pass to a native call. It is never null.
    pub fn as_ptr(&self) -> (r: usize)
        ensures
            r == self.addr(),
            r != 0,
    {
        proof {
            use_type_invariant(self);
        }
        self.addr
    }

    /// A second handle on the same resource, for an owner that the native
    /// reference count has already been raised for.
    pub(crate) fn share(&self) -> (r: Handle<K>)
        ensures
            r.addr() == self.addr(),
    {
        proof {
            use_type_invariant(self);
        }
        Handle { addr: self.addr, kind: PhantomData }
    }

    /// Gives up the handle for the one native release call that ends it.
    pub(crate) fn into_raw(self) -> (r: usize)
        ensures
            r == self.addr(),
            r != 0,
    {
        proof {
            use_type_invariant(&self);
        }
        self.addr
    }
}

} // verus!
