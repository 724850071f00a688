//! Endpoint identifiers of the trusted communication unit.
use vstd::prelude::*;

verus! {

/// The number of an endpoint.
pub type EpId = u16;

/// The endpoint number that names no endpoint.
pub const INVALID_EP: EpId = 0xFFFF;

/// The send endpoint for system calls.
pub const SYSC_SEP: EpId = 0;

/// The receive endpoint for replies to system calls.
pub const SYSC_REP: EpId = 1;

/// The receive endpoint for upcalls.
pub const UPCALL_REP: EpId = 2;

/// The default receive endpoint.
pub const DEF_REP: EpId = 3;

} // verus!
