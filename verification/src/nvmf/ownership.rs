//! The ownership state of an SPDK object held by a handle (a target or a transport).
use vstd::prelude::*;

use crate::errors::{Errno, ENODEV, EPERM};

verus! {

/// Represents the ownership state of a handle to an SPDK object.
///
/// An owned handle destroys the object when dropped; a borrowed handle leaves it alone;
/// a handle with no ownership state can only be queried for its state or dropped.
#[derive(Clone, Copy, Debug)]
pub enum Ownership<P> {
    /// The handle owns the object.
    Owned(P),
    /// The handle borrows the object.
    Borrowed(P),
    /// The handle holds no object.
    Vacant,
}

impl<P: Copy> Ownership<P> {
    /// The object the handle refers to, when it refers to one.
    pub open spec fn object(self) -> Option<P> {
        match self {
            Ownership::Owned(p) => Some(p),
            Ownership::Borrowed(p) => Some(p),
            Ownership::Vacant => None,
        }
    }

    /// Returns the object this handle refers to.
    ///
    /// A handle with no ownership state refers to no object; the operation panics on it,
    /// which the precondition refuses.
    pub fn as_ptr(&self) -> (p: P)
        requires
            !(*self is Vacant),
        ensures
            self.object() == Some(p),
    {
        match self {
            Ownership::Owned(p) => *p,
            Ownership::Borrowed(p) => *p,
            Ownership::Vacant => vstd::pervasive::unreached(),
        }
    }

    /// Borrows the object this handle refers to.
    ///
    /// A handle with no ownership state has nothing to borrow; the operation panics on it,
    /// which the precondition refuses.
    pub fn borrow(&self) -> (b: Self)
        requires
            !(*self is Vacant),
        ensures
            b is Borrowed,
            b.object() == self.object(),
    {
        Ownership::Borrowed(self.as_ptr())
    }

    /// Returns whether the handle owns its object.
    pub fn is_owned(&self) -> (b: bool)
        ensures
            b == *self is Owned,
    {
        matches!(self, Ownership::Owned(_))
    }

    /// Returns whether the handle borrows its object.
    pub fn is_borrowed(&self) -> (b: bool)
        ensures
            b == *self is Borrowed,
    {
        matches!(self, Ownership::Borrowed(_))
    }

    /// Returns whether the handle has no ownership state.
    pub fn is_none(&self) -> (b: bool)
        ensures
            b == *self is Vacant,
    {
        matches!(self, Ownership::Vacant)
    }

    /// Takes the state out of this handle, leaving it with no ownership state.
    pub fn take(&mut self) -> (prev: Self)
        ensures
            prev == *old(self),
            *final(self) is Vacant,
    {
        let mut prev = Ownership::Vacant;
        std::mem::swap(self, &mut prev);
        prev
    }
}

/// Whether a handle in state `o` can be destroyed, with the object it destroys: only an
/// owned object can be; a borrowed one is refused with `EPERM`, and a handle with no
/// ownership state with `ENODEV`.
pub open spec fn destroy_result<P>(o: Ownership<P>) -> Result<P, Errno> {
    match o {
        Ownership::Owned(p) => Ok(p),
        Ownership::Borrowed(_) => Err(Errno(EPERM)),
        Ownership::Vacant => Err(Errno(ENODEV)),
    }
}

/// Decides whether a target can be destroyed: only an owned target can be; a borrowed
/// one is refused with `EPERM`, and one with no ownership state with `ENODEV`.
pub fn target_destroy_check<P: Copy>(o: &Ownership<P>) -> (r: Result<P, Errno>)
    ensures
        r == destroy_result(*o),
{
    match o {
        Ownership::Owned(p) => Ok(*p),
        Ownership::Borrowed(_) => Err(Errno(EPERM)),
        Ownership::Vacant => Err(Errno(ENODEV)),
    }
}

/// Decides whether a transport can be destroyed: only an owned transport can be; a
/// borrowed one is refused with `EPERM`, and one with no ownership state with `ENODEV`.
pub fn transport_destroy_check<P: Copy>(o: &Ownership<P>) -> (r: Result<P, Errno>)
    ensures
        r == destroy_result(*o),
{
    match o {
        Ownership::Owned(p) => Ok(*p),
        Ownership::Borrowed(_) => Err(Errno(EPERM)),
        Ownership::Vacant => Err(Errno(ENODEV)),
    }
}

/// What adding a transport to a target does with the transport's handle once the target
/// reported the outcome.
#[derive(Debug, PartialEq, Eq, Structural)]
pub enum AddTransportStep {
    /// The target owns the transport now: the handle is given up without destroying it.
    Release,
    /// Adding failed: the transport is destroyed, and adding fails with the error.
    DestroyThenFail(Errno),
}

/// Decides what adding a transport does with the transport given the outcome the target
/// reported: release it on success, destroy it and fail with the error otherwise.
pub fn add_transport_step(res: Result<(), Errno>) -> (s: AddTransportStep)
    ensures
        res is Ok ==> s == AddTransportStep::Release,
        res matches Err(e) ==> s == AddTransportStep::DestroyThenFail(e),
{
    match res {
        Ok(()) => AddTransportStep::Release,
        Err(e) => AddTransportStep::DestroyThenFail(e),
    }
}

/// Only an owning handle destroys its object: a borrow of any handle refuses destruction
/// with `EPERM` and keeps referring to the same object, and a handle whose state was taken
/// refuses it with `ENODEV`, while the taken state destroys what the handle would have.
pub proof fn lemma_only_owner_destroys<P: Copy>(o: Ownership<P>, p: P)
    ensures
        destroy_result(Ownership::Borrowed(p)) == Err::<P, Errno>(Errno(EPERM)),
        destroy_result(Ownership::<P>::Vacant) == Err::<P, Errno>(Errno(ENODEV)),
        destroy_result(o) is Ok <==> o is Owned,
        destroy_result(o) matches Ok(q) ==> o.object() == Some(q),
{
}

} // verus!
