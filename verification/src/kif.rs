//! Capability selectors and memory permissions of the kernel interface.
use vstd::prelude::*;

verus! {

/// A capability selector.
pub type CapSel = u64;

/// The selector that names no capability.
pub const INVALID_SEL: CapSel = 0xFFFF;

/// The permission to read.
pub const PERM_R: u32 = 0x1;

/// The permission to write.
pub const PERM_W: u32 = 0x2;

/// The permission to execute.
pub const PERM_X: u32 = 0x4;

/// A set of memory permissions, held as the bits `PERM_R`, `PERM_W` and `PERM_X`.
#[derive(Clone, Copy, Debug, PartialEq, Eq, Structural)]
pub struct Perm {
    bits: u32,
}

impl View for Perm {
    type V = u32;

    closed spec fn view(&self) -> u32 {
        self.bits
    }
}

impl Perm {
    /// The permissions in `bits`; bits that name no permission are dropped.
    pub fn from_bits_truncate(bits: u32) -> (p: Perm)
        ensures
            p@ == bits & 0x7,
    {
        Perm { bits: bits & 0x7 }
    }

    /// No permission.
    pub fn empty() -> (p: Perm)
        ensures
            p@ == 0,
    {
        Perm { bits: 0 }
    }

    /// Read and write permission.
    pub fn rw() -> (p: Perm)
        ensures
            p@ == PERM_R | PERM_W,
    {
        Perm { bits: PERM_R | PERM_W }
    }

    /// Read, write and execute permission.
    pub fn rwx() -> (p: Perm)
        ensures
            p@ == PERM_R | PERM_W | PERM_X,
    {
        Perm { bits: PERM_R | PERM_W | PERM_X }
    }

    /// The bits of this set.
    pub fn bits(&self) -> (r: u32)
        ensures
            r == self@,
    {
        self.bits
    }
}

} // verus!

verus! {

/// The kind of capabilities a range of selectors names.
#[derive(Clone, Copy, Debug, PartialEq, Eq, Structural)]
pub enum CapType {
    /// Object capabilities
    Object,
    /// Memory mapping capabilities
    Mapping,
}

/// A range of capability selectors: `count` selectors from `start`.
#[derive(Clone, Copy, Debug, PartialEq, Eq, Structural)]
pub struct CapRngDesc {
    pub ty: CapType,
    pub start: CapSel,
    pub count: u64,
}

impl CapRngDesc {
    /// The range of `count` selectors of kind `ty` from `start`.
    pub fn new(ty: CapType, start: CapSel, count: u64) -> (r: CapRngDesc)
        ensures
            r == (CapRngDesc { ty, start, count }),
    {
        CapRngDesc { ty, start, count }
    }
}

/// A request to the kernel to revoke the capabilities `crd` of the VPE `vpe`; with `own`,
/// the VPE's own capabilities go too, not only those derived from them.
#[derive(Clone, Copy, Debug, PartialEq, Eq, Structural)]
pub struct Revoke {
    pub vpe: CapSel,
    pub crd: CapRngDesc,
    pub own: bool,
}

} // verus!
