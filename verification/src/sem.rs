//! Semaphores that live in the kernel and are used through system calls.
use vstd::prelude::*;
use crate::cap::{release_of, CapFlags, Capability, CapabilityView, Selector};
use crate::errors::Error;
use crate::kif::Revoke;

verus! {

/// The operations on a semaphore.
#[derive(Clone, Copy, Debug, PartialEq, Eq, Structural)]
pub enum SemOp {
    /// Increments the semaphore
    Up,
    /// Waits until the semaphore is positive, then decrements it
    Down,
}

/// A request to the kernel to perform `op` on the semaphore `sel`.
#[derive(Clone, Copy, Debug, PartialEq, Eq, Structural)]
pub struct SemCtrl {
    pub sel: Selector,
    pub op: SemOp,
}

/// A request to the kernel to create a semaphore with the value `value` at `sel`.
#[derive(Clone, Copy, Debug, PartialEq, Eq, Structural)]
pub struct CreateSem {
    pub sel: Selector,
    pub value: u32,
}

/// A request to the resource manager to make the global semaphore `name` available at `sel`.
#[derive(Clone, Debug)]
pub struct UseSem {
    pub sel: Selector,
    pub name: String,
}

/// A syscall-based semaphore.
#[derive(Debug)]
pub struct Semaphore {
    cap: Capability,
}

impl View for Semaphore {
    type V = CapabilityView;

    closed spec fn view(&self) -> CapabilityView {
        self.cap@
    }
}

impl Semaphore {
    /// The request to the resource manager that `attach` answers: the global semaphore
    /// `name`, at the free selector `sel`.
    pub fn attach_request(sel: Selector, name: &str) -> (r: UseSem)
        ensures
            r.sel == sel,
            r.name@ == name@,
    {
        UseSem { sel, name: name.to_owned() }
    }

    /// The request to the kernel that `create` answers: a semaphore with the initial value
    /// `value`, at the free selector `sel`.
    pub fn create_request(sel: Selector, value: u32) -> (r: CreateSem)
        ensures
            r == (CreateSem { sel, value }),
    {
        CreateSem { sel, value }
    }

    /// Attaches to the global semaphore that the resource manager made available at the
    /// free selector `sel`, given its answer `used`. An attached semaphore's capability is
    /// kept: it belongs to the resource manager.
    pub fn attach(sel: Selector, used: Result<(), Error>) -> (r: Result<Semaphore, Error>)
        ensures
            used is Ok <==> r is Ok,
            r matches Ok(s) ==> s@.sel == sel && s@.keep,
            used matches Err(e) ==> r == Err::<Semaphore, Error>(e),
    {
        match used {
            Ok(()) => Ok(Semaphore { cap: Capability::new(sel, CapFlags::keep_cap()) }),
            Err(e) => Err(e),
        }
    }

    /// Creates a new semaphore at the free selector `sel`, given the kernel's answer
    /// `created` to the request to create it there. A created semaphore's capability is
    /// owned: letting go of it revokes it.
    pub fn create(sel: Selector, created: Result<(), Error>) -> (r: Result<Semaphore, Error>)
        ensures
            created is Ok <==> r is Ok,
            r matches Ok(s) ==> s@.sel == sel && !s@.keep,
            created matches Err(e) ==> r == Err::<Semaphore, Error>(e),
    {
        match created {
            Ok(()) => Ok(Semaphore { cap: Capability::new(sel, CapFlags::empty()) }),
            Err(e) => Err(e),
        }
    }

    /// Binds a semaphore to the given selector; the capability is kept.
    pub fn bind(sel: Selector) -> (s: Semaphore)
        ensures
            s@.sel == sel,
            s@.keep,
    {
        Semaphore { cap: Capability::new(sel, CapFlags::keep_cap()) }
    }

    /// Returns the capability selector
    pub fn sel(&self) -> (r: Selector)
        ensures
            r == self@.sel,
    {
        self.cap.sel()
    }

    /// The request that performs the `up` operation on the semaphore
    pub fn up(&self) -> (r: SemCtrl)
        ensures
            r == (SemCtrl { sel: self@.sel, op: SemOp::Up }),
    {
        SemCtrl { sel: self.sel(), op: SemOp::Up }
    }

    /// The request that performs the `down` operation on the semaphore
    pub fn down(&self) -> (r: SemCtrl)
        ensures
            r == (SemCtrl { sel: self@.sel, op: SemOp::Down }),
    {
        SemCtrl { sel: self.sel(), op: SemOp::Down }
    }

    /// Lets go of the semaphore, as dropping it does: the result is the revocation to send
    /// to the kernel, if any.
    pub fn release(&self) -> (revoke: Option<Revoke>)
        ensures
            revoke == release_of(self@),
    {
        self.cap.release()
    }
}

} // verus!

verus! {

/// Letting go of a semaphore revokes it exactly where it was created here; one that was
/// attached to or bound is kept.
pub proof fn lemma_semaphore_release(sel: Selector, keep: bool)
    ensures
        release_of(CapabilityView { sel, keep }) == (if keep { None } else { Some(crate::cap::revoke_sel(sel)) }),
{
}

} // verus!
