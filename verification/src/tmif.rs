//! The interface between applications and TileMux.
//!
//! Each operation is a call into TileMux with an operation number and up to four
//! arguments; TileMux answers with a result code. The functions here compute the call
//! that an operation makes ([`TmCall`]) and what the answer means ([`get_result`]).
use vstd::prelude::*;
use crate::errors::{code_result, result_from_code, Code, Error};
use crate::kif::Perm;
use crate::tcu::{EpId, INVALID_EP};
use crate::time::TimeDuration;

verus! {

/// The number of an interrupt.
pub type IRQId = u32;

/// The interrupt number that names no interrupt.
pub const INVALID_IRQ: IRQId = 0xFFFF_FFFF;

/// A physical memory offset.
pub type Goff = u64;

/// The operations TileMux supports.
#[derive(Clone, Copy, Debug, PartialEq, Eq, Structural)]
pub enum Operation {
    /// Wait for an event, optionally with timeout
    Wait,
    /// Exit the application
    Exit,
    /// Switch to the next ready activity
    Yield,
    /// Map local physical memory (IO memory)
    MapMem,
    /// Register for a given interrupt
    RegIRQ,
    /// For TCU TLB misses
    TranslFault,
    /// Flush and invalidate cache
    FlushInv,
    /// Initializes thread-local storage (x86 only)
    InitTLS,
    /// Noop operation for testing purposes
    Noop,
}

/// The number of operations; they are numbered from 0 in the order of their declaration.
pub const OPERATION_COUNT: usize = 9;

/// The number that stands for `op` in a call.
pub open spec fn op_number(op: Operation) -> usize {
    match op {
        Operation::Wait => 0,
        Operation::Exit => 1,
        Operation::Yield => 2,
        Operation::MapMem => 3,
        Operation::RegIRQ => 4,
        Operation::TranslFault => 5,
        Operation::FlushInv => 6,
        Operation::InitTLS => 7,
        Operation::Noop => 8,
    }
}

/// The operation that the number `v` stands for, if any.
pub open spec fn op_of_number(v: usize) -> Option<Operation> {
    if v == 0 {
        Some(Operation::Wait)
    } else if v == 1 {
        Some(Operation::Exit)
    } else if v == 2 {
        Some(Operation::Yield)
    } else if v == 3 {
        Some(Operation::MapMem)
    } else if v == 4 {
        Some(Operation::RegIRQ)
    } else if v == 5 {
        Some(Operation::TranslFault)
    } else if v == 6 {
        Some(Operation::FlushInv)
    } else if v == 7 {
        Some(Operation::InitTLS)
    } else if v == 8 {
        Some(Operation::Noop)
    } else {
        None
    }
}

impl Operation {
    /// The number that stands for this operation in a call.
    pub fn to_usize(self) -> (r: usize)
        ensures
            r == op_number(self),
    {
        match self {
            Operation::Wait => 0,
            Operation::Exit => 1,
            Operation::Yield => 2,
            Operation::MapMem => 3,
            Operation::RegIRQ => 4,
            Operation::TranslFault => 5,
            Operation::FlushInv => 6,
            Operation::InitTLS => 7,
            Operation::Noop => 8,
        }
    }

    /// The operation with number `v`, or `None` where no operation has that number.
    pub fn try_from_usize(v: usize) -> (r: Option<Operation>)
        ensures
            r == op_of_number(v),
    {
        if v == 0 {
            Some(Operation::Wait)
        } else if v == 1 {
            Some(Operation::Exit)
        } else if v == 2 {
            Some(Operation::Yield)
        } else if v == 3 {
            Some(Operation::MapMem)
        } else if v == 4 {
            Some(Operation::RegIRQ)
        } else if v == 5 {
            Some(Operation::TranslFault)
        } else if v == 6 {
            Some(Operation::FlushInv)
        } else if v == 7 {
            Some(Operation::InitTLS)
        } else if v == 8 {
            Some(Operation::Noop)
        } else {
            None
        }
    }
}

/// Every operation's number leads back to the operation, and a number leads to an
/// operation exactly when it is below `OPERATION_COUNT`, to one with that number.
pub proof fn lemma_operation_numbering(op: Operation, v: usize)
    ensures
        op_of_number(op_number(op)) == Some(op),
        op_number(op) < OPERATION_COUNT,
        op_of_number(v) is Some <==> v < OPERATION_COUNT,
        op_of_number(v) matches Some(o) ==> op_number(o) == v,
{
}

/// A call into TileMux: the operation and its arguments, in order.
#[derive(Debug)]
pub struct TmCall {
    pub op: Operation,
    pub args: Vec<usize>,
}

/// The arguments of a `Wait` call: the endpoint, the interrupt and the timeout in
/// nanoseconds, each replaced by its "none" value where it is absent.
pub open spec fn wait_args(ep: Option<EpId>, irq: Option<IRQId>, duration: Option<TimeDuration>) -> Seq<usize> {
    seq![
        (match ep { Some(e) => e, None => INVALID_EP }) as usize,
        (match irq { Some(i) => i, None => INVALID_IRQ }) as usize,
        match duration { Some(d) => d@ as usize, None => usize::MAX },
    ]
}

/// The call that waits for a message on `ep`, the interrupt `irq` or the end of
/// `duration`, whichever comes first; any of them may be absent.
pub fn wait(ep: Option<EpId>, irq: Option<IRQId>, duration: Option<TimeDuration>) -> (c: TmCall)
    ensures
        c.op == Operation::Wait,
        c.args@ == wait_args(ep, irq, duration),
{
    let e: EpId = match ep {
        Some(e) => e,
        None => INVALID_EP,
    };
    let i: IRQId = match irq {
        Some(i) => i,
        None => INVALID_IRQ,
    };
    let t: usize = match duration {
        Some(d) => d.as_nanos() as usize,
        None => usize::MAX,
    };
    let mut args: Vec<usize> = Vec::new();
    args.push(e as usize);
    args.push(i as usize);
    args.push(t);
    TmCall { op: Operation::Wait, args }
}

/// The call that ends the application with the exit code `code`.
pub fn exit(code: Code) -> (c: TmCall)
    ensures
        c.op == Operation::Exit,
        c.args@ == seq![code as usize],
{
    let mut args: Vec<usize> = Vec::new();
    args.push(code as usize);
    TmCall { op: Operation::Exit, args }
}

/// The call that maps `pages` pages of local physical memory at `phys` to the virtual
/// address `virt` with the permissions `access`.
pub fn map(virt: usize, phys: Goff, pages: usize, access: Perm) -> (c: TmCall)
    ensures
        c.op == Operation::MapMem,
        c.args@ == seq![virt, phys as usize, pages, access@ as usize],
{
    let mut args: Vec<usize> = Vec::new();
    args.push(virt);
    args.push(phys as usize);
    args.push(pages);
    args.push(access.bits() as usize);
    TmCall { op: Operation::MapMem, args }
}

/// The call that registers the application for the interrupt `irq`.
pub fn reg_irq(irq: IRQId) -> (c: TmCall)
    ensures
        c.op == Operation::RegIRQ,
        c.args@ == seq![irq as usize],
{
    let mut args: Vec<usize> = Vec::new();
    args.push(irq as usize);
    TmCall { op: Operation::RegIRQ, args }
}

/// The call that flushes and invalidates the cache.
pub fn flush_invalidate() -> (c: TmCall)
    ensures
        c.op == Operation::FlushInv,
        c.args@ == seq![0usize],
{
    let mut args: Vec<usize> = Vec::new();
    args.push(0);
    TmCall { op: Operation::FlushInv, args }
}

/// The call that switches to the next ready activity.
pub fn switch_activity() -> (c: TmCall)
    ensures
        c.op == Operation::Yield,
        c.args@ == seq![0usize],
{
    let mut args: Vec<usize> = Vec::new();
    args.push(0);
    TmCall { op: Operation::Yield, args }
}

/// The call that does nothing.
pub fn noop() -> (c: TmCall)
    ensures
        c.op == Operation::Noop,
        c.args@ == seq![0usize],
{
    let mut args: Vec<usize> = Vec::new();
    args.push(0);
    TmCall { op: Operation::Noop, args }
}

/// What TileMux's answer `res` to a call means: its low 32 bits are the result code.
pub fn get_result(res: usize) -> (r: Result<(), Error>)
    ensures
        r == code_result(res as Code),
{
    result_from_code(res as Code)
}

} // verus!

verus! {

/// The operations are numbered 0 to 8 in the order of their declaration.
pub proof fn lemma_operation_numbers()
    ensures
        op_number(Operation::Wait) == 0,
        op_number(Operation::Exit) == 1,
        op_number(Operation::Yield) == 2,
        op_number(Operation::MapMem) == 3,
        op_number(Operation::RegIRQ) == 4,
        op_number(Operation::TranslFault) == 5,
        op_number(Operation::FlushInv) == 6,
        op_number(Operation::InitTLS) == 7,
        op_number(Operation::Noop) == 8,
        forall|a: Operation, b: Operation| op_number(a) == op_number(b) ==> a == b,
{
}

/// A `Wait` call has three arguments, each depending on its own parameter alone: the
/// endpoint or `0xFFFF` without one, the interrupt or `0xFFFF_FFFF` without one, and the
/// timeout's nanoseconds (low bits) or `usize::MAX` without one.
pub proof fn lemma_wait_args(ep: Option<EpId>, irq: Option<IRQId>, duration: Option<TimeDuration>)
    ensures
        INVALID_EP == 0xFFFF,
        INVALID_IRQ == 0xFFFF_FFFF,
        wait_args(ep, irq, duration).len() == 3,
        wait_args(ep, irq, duration)[0] == (match ep { Some(e) => e as usize, None => 0xFFFFusize }),
        wait_args(ep, irq, duration)[1] == (match irq { Some(i) => i as usize, None => 0xFFFF_FFFFusize }),
        wait_args(ep, irq, duration)[2] == (match duration { Some(d) => d@ as usize, None => usize::MAX }),
{
}

/// TileMux's answer means success exactly when its low 32 bits are 0; otherwise it is the
/// error with those bits as its code.
pub proof fn lemma_get_result(res: usize)
    ensures
        code_result(res as Code) is Ok <==> (res as Code) == 0,
        (res as Code) != 0 ==> code_result(res as Code) == Err::<(), Error>(Error::Code(res as Code)),
{
}

} // verus!
