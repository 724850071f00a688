//! Capabilities: a selector together with the flags that say who owns it.
use vstd::prelude::*;
use crate::kif::{CapRngDesc, CapSel, CapType, Revoke};

verus! {

/// A capability selector.
pub type Selector = CapSel;

/// The bit of [`CapFlags`] that says the capability is kept when its holder lets go of it.
pub const KEEP_CAP: u32 = 0x1;

/// Flags for [`Capability`]. `KEEP_CAP` is the one flag there is.
#[derive(Clone, Copy, Debug, PartialEq, Eq, Structural)]
pub struct CapFlags {
    keep: bool,
}

impl View for CapFlags {
    /// Whether `KEEP_CAP` is set.
    type V = bool;

    closed spec fn view(&self) -> bool {
        self.keep
    }
}

/// The bits of a set of flags whose `KEEP_CAP` membership is `keep`.
pub open spec fn flag_bits(keep: bool) -> u32 {
    if keep { KEEP_CAP } else { 0 }
}

impl CapFlags {
    /// Creates a new `CapFlags` object without any flag.
    pub fn const_empty() -> (f: CapFlags)
        ensures
            !f@,
    {
        CapFlags { keep: false }
    }

    /// The set without any flag.
    pub fn empty() -> (f: CapFlags)
        ensures
            !f@,
    {
        CapFlags { keep: false }
    }

    /// The set that holds `KEEP_CAP`.
    pub fn keep_cap() -> (f: CapFlags)
        ensures
            f@,
    {
        CapFlags { keep: true }
    }

    /// The flags among `bits`; bits that name no flag are dropped.
    pub fn from_bits_truncate(bits: u32) -> (f: CapFlags)
        ensures
            f@ == (bits & KEEP_CAP != 0),
    {
        CapFlags { keep: bits & KEEP_CAP != 0 }
    }

    /// The bits of this set.
    pub fn bits(&self) -> (r: u32)
        ensures
            r == flag_bits(self@),
    {
        if self.keep { KEEP_CAP } else { 0 }
    }

    /// Whether the set is empty.
    pub fn is_empty(&self) -> (r: bool)
        ensures
            r == !self@,
    {
        !self.keep
    }

    /// Whether `KEEP_CAP` is in the set.
    pub fn keeps_cap(&self) -> (r: bool)
        ensures
            r == self@,
    {
        self.keep
    }
}

/// What a capability is: its selector and whether it is kept.
pub struct CapabilityView {
    pub sel: Selector,
    pub keep: bool,
}

/// The request that lets go of the capability `sel` of the current VPE: the kernel revokes
/// that one object capability, own one included.
pub open spec fn revoke_sel(sel: Selector) -> Revoke {
    Revoke { vpe: 0, crd: CapRngDesc { ty: CapType::Object, start: sel, count: 1 }, own: true }
}

/// What letting go of a capability asks of the kernel: nothing for a kept one, otherwise
/// the revocation of its selector.
pub open spec fn release_of(c: CapabilityView) -> Option<Revoke> {
    if c.keep {
        None
    } else {
        Some(revoke_sel(c.sel))
    }
}

/// Represents a capability
#[derive(Debug)]
pub struct Capability {
    sel: Selector,
    flags: CapFlags,
}

impl View for Capability {
    type V = CapabilityView;

    closed spec fn view(&self) -> CapabilityView {
        CapabilityView { sel: self.sel, keep: self.flags@ }
    }
}

impl Capability {
    /// Creates a new `Capability` with given selector and flags.
    pub fn new(sel: Selector, flags: CapFlags) -> (c: Capability)
        ensures
            c@.sel == sel,
            c@.keep == flags@,
    {
        Capability { sel, flags }
    }

    /// Returns the selector.
    pub fn sel(&self) -> (r: Selector)
        ensures
            r == self@.sel,
    {
        self.sel
    }

    /// Returns the flags.
    pub fn flags(&self) -> (r: CapFlags)
        ensures
            r@ == self@.keep,
    {
        self.flags
    }

    /// Sets the flags to `flags`.
    pub fn set_flags(&mut self, flags: CapFlags)
        ensures
            final(self)@.sel == old(self)@.sel,
            final(self)@.keep == flags@,
    {
        self.flags = flags;
    }

    /// Rebinds the selector to `sel`, after letting go of the old one: the result is the
    /// revocation to send to the kernel, if any.
    pub fn rebind(&mut self, sel: Selector) -> (revoke: Option<Revoke>)
        ensures
            revoke == release_of(old(self)@),
            final(self)@.sel == sel,
            final(self)@.keep == old(self)@.keep,
    {
        let revoke = self.release();
        self.sel = sel;
        revoke
    }

    /// Lets go of the capability, as its holder does when it drops it: the result is the
    /// revocation to send to the kernel, if any.
    pub fn release(&self) -> (revoke: Option<Revoke>)
        ensures
            revoke == release_of(self@),
    {
        if self.flags.is_empty() {
            Some(Revoke {
                vpe: 0,
                crd: CapRngDesc::new(CapType::Object, self.sel, 1),
                own: true,
            })
        } else {
            None
        }
    }
}

} // verus!

verus! {

/// A kept capability is never revoked; an owned one is revoked, as one object capability
/// of the current VPE, when its holder lets go of it. Rebinding keeps the ownership, so
/// letting go after a rebind concerns the new selector.
pub proof fn lemma_release_after_rebind(c: CapabilityView, sel: Selector)
    ensures
        release_of(c) is None <==> c.keep,
        release_of(CapabilityView { sel, ..c }) == (if c.keep { None } else {
            Some(Revoke { vpe: 0, crd: CapRngDesc { ty: CapType::Object, start: sel, count: 1 }, own: true })
        }),
{
}

} // verus!
