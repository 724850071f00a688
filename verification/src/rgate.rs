//! Receive gates: a capability for a receive buffer that is bound to an endpoint.
//!
//! Making, activating and waiting on a gate alternates between decisions and work that
//! the runtime does (allocating endpoints and buffers, system calls, the TCU). The
//! decisions stand here: each step takes the receive gate and the answer to the previous action,
//! updates the receive gate and says what to do next.
use vstd::prelude::*;
use vstd::arithmetic::power2::pow2;
use crate::cap::{release_of, CapFlags, Capability, CapabilityView, Selector};
use crate::kif::Revoke;
use crate::errors::Error;
use crate::kif::INVALID_SEL;
use crate::tcu::{EpId, SYSC_SEP};
use crate::util::{is_next_log2, next_log2};

verus! {

/// The default message order (and buffer order) of receive gates.
pub const DEF_MSG_ORD: i32 = 6;

/// `2^order` bytes, for an order that fits.
pub fn order_size(order: i32) -> (r: usize)
    requires
        0 <= order < usize::BITS,
    ensures
        r == pow2(order as nat),
{
    proof {
        vstd::bits::lemma_usize_pow2_no_overflow(order as nat);
        vstd::bits::lemma_usize_shl_is_mul(1, order as usize);
    }
    1usize << (order as usize)
}

/// The byte size of a reply of `len` elements of `elem_size` bytes each.
pub fn reply_size(len: usize, elem_size: usize) -> (r: usize)
    requires
        len * elem_size <= usize::MAX,
    ensures
        r == len * elem_size,
{
    len * elem_size
}

/// The text that describes a receive gate by its selector, the address of its buffer and
/// the size of that buffer.
pub uninterp spec fn gate_text(sel: Selector, buf: usize, size: u32) -> Seq<char>;

/// Formats `RecvGate[sel: <sel>, buf: <buf>, size: <size>]` with `std::format!`, the
/// selector in decimal and the two others in hexadecimal with a `0x` prefix. The contract
/// claims only that the text depends on these three numbers alone; what characters come
/// out is left unsaid.
#[verifier::external_body]
fn format_gate(sel: Selector, buf: usize, size: u32) -> (r: String)
    ensures
        r@ == gate_text(sel, buf, size),
{
    format!("RecvGate[sel: {}, buf: {:#0x}, size: {:#0x}]", sel, buf, size)
}

/// What the arguments for a new receive gate say.
pub struct RGateArgsView {
    pub order: i32,
    pub msg_order: i32,
    pub sel: Selector,
    pub keep: bool,
}

/// The arguments for a new receive gate.
pub struct RGateArgs {
    order: i32,
    msg_order: i32,
    sel: Selector,
    flags: CapFlags,
}

impl View for RGateArgs {
    type V = RGateArgsView;

    closed spec fn view(&self) -> RGateArgsView {
        RGateArgsView { order: self.order, msg_order: self.msg_order, sel: self.sel, keep: self.flags@ }
    }
}

impl RGateArgs {
    /// The default arguments: default orders, no selector chosen, no flags.
    pub fn new() -> (a: RGateArgs)
        ensures
            a@ == (RGateArgsView { order: DEF_MSG_ORD, msg_order: DEF_MSG_ORD, sel: INVALID_SEL, keep: false }),
    {
        RGateArgs { order: DEF_MSG_ORD, msg_order: DEF_MSG_ORD, sel: INVALID_SEL, flags: CapFlags::empty() }
    }

    /// These arguments with a buffer of `2^order` bytes.
    pub fn order(self, order: i32) -> (a: RGateArgs)
        ensures
            a@ == (RGateArgsView { order, ..self@ }),
    {
        RGateArgs { order, ..self }
    }

    /// These arguments with messages of at most `2^msg_order` bytes.
    pub fn msg_order(self, msg_order: i32) -> (a: RGateArgs)
        ensures
            a@ == (RGateArgsView { msg_order, ..self@ }),
    {
        RGateArgs { msg_order, ..self }
    }

    /// These arguments with the receive gate at selector `sel`.
    pub fn sel(self, sel: Selector) -> (a: RGateArgs)
        ensures
            a@ == (RGateArgsView { sel, ..self@ }),
    {
        RGateArgs { sel, ..self }
    }
}

/// A request to the kernel to create a receive gate at `sel` with a buffer of `2^order`
/// bytes for messages of at most `2^msg_order` bytes.
#[derive(Clone, Copy, Debug, PartialEq, Eq, Structural)]
pub struct CreateRGate {
    pub sel: Selector,
    pub order: i32,
    pub msg_order: i32,
}

/// The selector of a gate made from `args`: the one they name, else the `fresh` one.
pub open spec fn chosen_sel(args: RGateArgsView, fresh: Selector) -> Selector {
    if args.sel == INVALID_SEL {
        fresh
    } else {
        args.sel
    }
}

/// What a receive gate is.
pub struct RecvGateView {
    /// The receive gate's capability selector
    pub sel: Selector,
    /// Whether the capability is kept when the receive gate goes
    pub keep: bool,
    /// The endpoint the receive gate is bound to, if any
    pub ep: Option<EpId>,
    /// The address of the receive buffer; 0 while it has none
    pub buf: usize,
    /// The buffer holds `2^order` bytes
    pub order: i32,
    /// The receive gate allocated its buffer and frees it when it goes
    pub free_buf: bool,
    /// The receive gate allocated its endpoint and frees it when it lets go of it
    pub free_ep: bool,
}

/// A receive gate.
#[derive(Debug)]
pub struct RecvGate {
    cap: Capability,
    ep: Option<EpId>,
    buf: usize,
    order: i32,
    free_buf: bool,
    free_ep: bool,
}

impl View for RecvGate {
    type V = RecvGateView;

    closed spec fn view(&self) -> RecvGateView {
        RecvGateView {
            sel: self.cap@.sel,
            keep: self.cap@.keep,
            ep: self.ep,
            buf: self.buf,
            order: self.order,
            free_buf: self.free_buf,
            free_ep: self.free_ep,
        }
    }
}

/// The next thing to do for an activation.
#[derive(Clone, Copy, Debug)]
pub enum ActivateAction {
    /// Allocate an endpoint of the current VPE; answer `EpAllocated`.
    AllocEp,
    /// Reserve `ep` in the endpoint multiplexer; answer `EpReserved`.
    ReserveEp(EpId),
    /// Allocate a receive buffer of the given size; answer `RbufAllocated`.
    AllocRbuf(usize),
    /// Ask the kernel to activate the receive gate `sel` for the VPE `vpe` on `ep` with the
    /// buffer at `addr`; answer `Activated`.
    Activate { vpe: Selector, sel: Selector, ep: EpId, addr: usize },
    /// The activation is over, with this result.
    Done(Result<(), Error>),
}

/// The answer to an [`ActivateAction`].
#[derive(Clone, Copy, Debug)]
pub enum ActivateEvent {
    EpAllocated(Result<EpId, Error>),
    EpReserved,
    RbufAllocated(Result<usize, Error>),
    Activated(Result<(), Error>),
}

/// Where an activation stands.
#[derive(Clone, Copy, Debug, PartialEq, Eq, Structural)]
pub enum ActivateStep {
    /// Waiting for an endpoint for the VPE `vpe`
    AwaitEp { vpe: Selector },
    /// Waiting for `ep` to be reserved
    AwaitReserve { vpe: Selector, ep: EpId },
    /// Waiting for a buffer, to activate on `ep`
    AwaitRbuf { vpe: Selector, ep: EpId },
    /// Waiting for the kernel to activate on `ep` with the buffer at `addr`; `fresh` says
    /// whether the receive gate allocated that buffer
    AwaitActivate { ep: EpId, addr: usize, fresh: bool },
    /// Over
    Finished,
}

/// Whether `ev` answers the action that `step` waits on.
pub open spec fn answers(step: ActivateStep, ev: ActivateEvent) -> bool {
    match step {
        ActivateStep::AwaitEp { .. } => ev is EpAllocated,
        ActivateStep::AwaitReserve { .. } => ev is EpReserved,
        ActivateStep::AwaitRbuf { .. } => ev is RbufAllocated,
        ActivateStep::AwaitActivate { .. } => ev is Activated,
        ActivateStep::Finished => false,
    }
}

/// A buffer of `2^order` bytes can be asked for, where the receive gate will need to: it
/// is unbound and has no buffer yet.
pub open spec fn rbuf_size_ok(g: RecvGateView) -> bool {
    g.ep is None && g.buf == 0 ==> 0 <= g.order < usize::BITS
}

/// The receive gate after it took the buffer at `addr`, where it allocated it (`fresh`).
pub open spec fn take_buf(g: RecvGateView, addr: usize, fresh: bool) -> RecvGateView {
    if fresh {
        RecvGateView { buf: addr, free_buf: true, ..g }
    } else {
        g
    }
}

/// Activating `g` for the VPE `vpe` on `ep` with the buffer at `addr`: the receive gate takes the
/// endpoint; a gate with a selector asks the kernel, one without is active at once.
pub open spec fn activate_for_spec(g: RecvGateView, vpe: Selector, ep: EpId, addr: usize, fresh: bool) -> (
    RecvGateView,
    ActivateStep,
    ActivateAction,
) {
    let g1 = RecvGateView { ep: Some(ep), ..g };
    if g.sel != INVALID_SEL {
        (g1, ActivateStep::AwaitActivate { ep, addr, fresh }, ActivateAction::Activate { vpe, sel: g.sel, ep, addr })
    } else {
        (take_buf(g1, addr, fresh), ActivateStep::Finished, ActivateAction::Done(Ok(())))
    }
}

/// Activating `g` on `ep`: nothing for an active gate; else the receive gate's buffer, or a new
/// one of `2^order` bytes where it has none.
pub open spec fn activate_ep_spec(g: RecvGateView, vpe: Selector, ep: EpId) -> (
    RecvGateView,
    ActivateStep,
    ActivateAction,
) {
    if g.ep is Some {
        (g, ActivateStep::Finished, ActivateAction::Done(Ok(())))
    } else if g.buf == 0 {
        (g, ActivateStep::AwaitRbuf { vpe, ep }, ActivateAction::AllocRbuf(pow2(g.order as nat) as usize))
    } else {
        activate_for_spec(g, vpe, ep, g.buf, false)
    }
}

/// Activating `g`: nothing for an active gate; else first an endpoint.
pub open spec fn activate_spec(g: RecvGateView, vpe: Selector) -> (RecvGateView, ActivateStep, ActivateAction) {
    if g.ep is Some {
        (g, ActivateStep::Finished, ActivateAction::Done(Ok(())))
    } else {
        (g, ActivateStep::AwaitEp { vpe }, ActivateAction::AllocEp)
    }
}

/// The step after `step`, answered by `ev`. Every failure ends the activation with that
/// error and leaves the receive gate as it stands.
pub open spec fn resume_spec(g: RecvGateView, step: ActivateStep, ev: ActivateEvent) -> (
    RecvGateView,
    ActivateStep,
    ActivateAction,
) {
    match step {
        ActivateStep::AwaitEp { vpe } => match ev {
            ActivateEvent::EpAllocated(Ok(ep)) => (
                RecvGateView { free_ep: true, ..g },
                ActivateStep::AwaitReserve { vpe, ep },
                ActivateAction::ReserveEp(ep),
            ),
            ActivateEvent::EpAllocated(Err(e)) => (g, ActivateStep::Finished, ActivateAction::Done(Err(e))),
            _ => (g, step, ActivateAction::Done(Ok(()))),
        },
        ActivateStep::AwaitReserve { vpe, ep } => activate_ep_spec(g, vpe, ep),
        ActivateStep::AwaitRbuf { vpe, ep } => match ev {
            ActivateEvent::RbufAllocated(Ok(addr)) => activate_for_spec(g, vpe, ep, addr, true),
            ActivateEvent::RbufAllocated(Err(e)) => (g, ActivateStep::Finished, ActivateAction::Done(Err(e))),
            _ => (g, step, ActivateAction::Done(Ok(()))),
        },
        ActivateStep::AwaitActivate { ep, addr, fresh } => match ev {
            ActivateEvent::Activated(Ok(())) => (take_buf(g, addr, fresh), ActivateStep::Finished, ActivateAction::Done(Ok(()))),
            ActivateEvent::Activated(Err(e)) => (g, ActivateStep::Finished, ActivateAction::Done(Err(e))),
            _ => (g, step, ActivateAction::Done(Ok(()))),
        },
        ActivateStep::Finished => (g, step, ActivateAction::Done(Ok(()))),
    }
}

/// What a resumed step needs of the receive gate: a buffer size that fits where one is asked
/// for, and no endpoint yet where one is about to be taken.
pub open spec fn resume_ok(g: RecvGateView, step: ActivateStep) -> bool {
    match step {
        ActivateStep::AwaitReserve { .. } => rbuf_size_ok(g),
        ActivateStep::AwaitRbuf { .. } => g.ep is None,
        _ => true,
    }
}

/// The buffers of the three default gates (for system call replies, upcalls and other
/// messages): their sizes, and where the receive buffers lie.
pub struct RecvBufConfig {
    /// The start of the receive buffer space where the PE has virtual memory
    pub recvbuf_space: usize,
    /// The size of the receive buffer space at the end of a PE's scratchpad memory
    pub recvbuf_size_spm: usize,
    /// The size of the system call reply buffer
    pub sysc_rbuf_size: usize,
    /// The size of the upcall buffer
    pub upcall_rbuf_size: usize,
    /// The size of the default buffer
    pub def_rbuf_size: usize,
}

/// The address `off` bytes into the receive buffer space: at `recvbuf_space` on a PE with
/// virtual memory, else at the end of its memory of `mem_size` bytes.
pub open spec fn rbuf_addr(cfg: RecvBufConfig, has_virtmem: bool, mem_size: usize, off: int) -> int {
    if has_virtmem {
        cfg.recvbuf_space + off
    } else {
        (mem_size - cfg.recvbuf_size_spm) + off
    }
}

/// The three default buffers, one after the other, fit in the address space.
pub open spec fn rbuf_layout_ok(cfg: RecvBufConfig, has_virtmem: bool, mem_size: usize) -> bool {
    &&& (!has_virtmem ==> cfg.recvbuf_size_spm <= mem_size)
    &&& rbuf_addr(cfg, has_virtmem, mem_size, cfg.sysc_rbuf_size + cfg.upcall_rbuf_size) <= usize::MAX
}

/// Whether the three default buffers fit in the address space (`rbuf_layout_ok`).
pub fn rbuf_fits(cfg: &RecvBufConfig, has_virtmem: bool, mem_size: usize) -> (r: bool)
    ensures
        r == rbuf_layout_ok(*cfg, has_virtmem, mem_size),
{
    if !has_virtmem && cfg.recvbuf_size_spm > mem_size {
        return false;
    }
    let off = match cfg.sysc_rbuf_size.checked_add(cfg.upcall_rbuf_size) {
        Some(o) => o,
        None => return false,
    };
    let base = if has_virtmem { cfg.recvbuf_space } else { mem_size - cfg.recvbuf_size_spm };
    base.checked_add(off).is_some()
}

/// The address `off` bytes into the receive buffer space.
fn get_buf(cfg: &RecvBufConfig, has_virtmem: bool, mem_size: usize, off: usize) -> (r: usize)
    requires
        rbuf_layout_ok(*cfg, has_virtmem, mem_size),
        off <= cfg.sysc_rbuf_size + cfg.upcall_rbuf_size,
    ensures
        r == rbuf_addr(*cfg, has_virtmem, mem_size, off as int),
{
    if has_virtmem {
        cfg.recvbuf_space + off
    } else {
        (mem_size - cfg.recvbuf_size_spm) + off
    }
}

/// Places the default gates' buffers: the one for system call replies first, the one for
/// upcalls after it, the default one after that, each of the size `cfg` gives (its order
/// the least that covers it).
pub fn init(
    sysc: &mut RecvGate,
    upcall: &mut RecvGate,
    def: &mut RecvGate,
    cfg: &RecvBufConfig,
    has_virtmem: bool,
    mem_size: usize,
)
    requires
        rbuf_layout_ok(*cfg, has_virtmem, mem_size),
    ensures
        final(sysc)@ == (RecvGateView {
            buf: rbuf_addr(*cfg, has_virtmem, mem_size, 0) as usize,
            order: final(sysc)@.order,
            ..old(sysc)@
        }),
        is_next_log2(cfg.sysc_rbuf_size as int, final(sysc)@.order as int),
        final(upcall)@ == (RecvGateView {
            buf: rbuf_addr(*cfg, has_virtmem, mem_size, cfg.sysc_rbuf_size as int) as usize,
            order: final(upcall)@.order,
            ..old(upcall)@
        }),
        is_next_log2(cfg.upcall_rbuf_size as int, final(upcall)@.order as int),
        final(def)@ == (RecvGateView {
            buf: rbuf_addr(*cfg, has_virtmem, mem_size, cfg.sysc_rbuf_size + cfg.upcall_rbuf_size) as usize,
            order: final(def)@.order,
            ..old(def)@
        }),
        is_next_log2(cfg.def_rbuf_size as int, final(def)@.order as int),
        final(sysc)@.buf == (if has_virtmem { cfg.recvbuf_space as int } else { mem_size - cfg.recvbuf_size_spm }),
        final(upcall)@.buf == final(sysc)@.buf + cfg.sysc_rbuf_size,
        final(def)@.buf == final(upcall)@.buf + cfg.upcall_rbuf_size,
{
    sysc.buf = get_buf(cfg, has_virtmem, mem_size, 0);
    sysc.order = next_log2(cfg.sysc_rbuf_size);

    upcall.buf = get_buf(cfg, has_virtmem, mem_size, cfg.sysc_rbuf_size);
    upcall.order = next_log2(cfg.upcall_rbuf_size);

    def.buf = get_buf(cfg, has_virtmem, mem_size, cfg.sysc_rbuf_size + cfg.upcall_rbuf_size);
    def.order = next_log2(cfg.def_rbuf_size);
}


/// The next thing to do while waiting for a message.
#[derive(Clone, Copy, Debug)]
pub enum WaitAction {
    /// Fetch a message from the receive endpoint; answer `Fetched`.
    Fetch(EpId),
    /// Check whether the send endpoint is still valid; answer `Checked`.
    CheckValid(EpId),
    /// Sleep until something happens, as an idle PE where the flag says so, for at most
    /// the given number of nanoseconds (0: without limit); answer `Slept`.
    Sleep(bool, u64),
    /// The wait is over: hand out the message just fetched.
    Deliver,
    /// The wait is over, with this error.
    Fail(Error),
}

/// The answer to a [`WaitAction`].
#[derive(Clone, Copy, Debug)]
pub enum WaitEvent {
    /// Whether a message was fetched
    Fetched(bool),
    /// Whether the send endpoint is valid
    Checked(bool),
    /// How the sleep ended
    Slept(Result<(), Error>),
}

/// Which answer a wait expects.
#[derive(Clone, Copy, Debug, PartialEq, Eq, Structural)]
pub enum WaitPhase {
    Fetching,
    Checking,
    Sleeping,
    Over,
}

/// A wait for a message on the receive endpoint `rep`, on behalf of the send gate whose
/// endpoint is `sep`, if any.
#[derive(Clone, Copy, Debug, PartialEq, Eq, Structural)]
pub struct WaitState {
    pub rep: EpId,
    pub sep: Option<EpId>,
    pub idle: bool,
    pub phase: WaitPhase,
}

/// Whether `ev` answers what a wait in `phase` asked for.
pub open spec fn wait_answers(phase: WaitPhase, ev: WaitEvent) -> bool {
    match phase {
        WaitPhase::Fetching => ev is Fetched,
        WaitPhase::Checking => ev is Checked,
        WaitPhase::Sleeping => ev is Slept,
        WaitPhase::Over => false,
    }
}

/// A wait sleeps as an idle PE unless it waits for the reply to a system call.
pub open spec fn wait_idle(sep: Option<EpId>) -> bool {
    match sep {
        Some(e) => e != SYSC_SEP,
        None => true,
    }
}

/// After a fetch that found nothing: check the send endpoint where there is one, else sleep.
pub open spec fn after_empty_fetch(st: WaitState) -> (WaitState, WaitAction) {
    match st.sep {
        Some(e) => (WaitState { phase: WaitPhase::Checking, ..st }, WaitAction::CheckValid(e)),
        None => (WaitState { phase: WaitPhase::Sleeping, ..st }, WaitAction::Sleep(st.idle, 0)),
    }
}

/// The step after `st`, answered by `ev`: a fetched message ends the wait, an invalid send
/// endpoint or a failed sleep end it with an error, and otherwise it fetches, checks and
/// sleeps in turn.
pub open spec fn wait_resume_spec(st: WaitState, ev: WaitEvent) -> (WaitState, WaitAction) {
    match ev {
        WaitEvent::Fetched(true) => (WaitState { phase: WaitPhase::Over, ..st }, WaitAction::Deliver),
        WaitEvent::Fetched(false) => after_empty_fetch(st),
        WaitEvent::Checked(false) => (WaitState { phase: WaitPhase::Over, ..st }, WaitAction::Fail(Error::InvEP)),
        WaitEvent::Checked(true) => (WaitState { phase: WaitPhase::Sleeping, ..st }, WaitAction::Sleep(st.idle, 0)),
        WaitEvent::Slept(Err(e)) => (WaitState { phase: WaitPhase::Over, ..st }, WaitAction::Fail(e)),
        WaitEvent::Slept(Ok(())) => (WaitState { phase: WaitPhase::Fetching, ..st }, WaitAction::Fetch(st.rep)),
    }
}

impl WaitState {
    /// Takes the wait on with the answer `ev` to its last action.
    pub fn resume(self, ev: WaitEvent) -> (r: (WaitState, WaitAction))
        requires
            wait_answers(self.phase, ev),
        ensures
            r == wait_resume_spec(self, ev),
    {
        match ev {
            WaitEvent::Fetched(true) => (WaitState { phase: WaitPhase::Over, ..self }, WaitAction::Deliver),
            WaitEvent::Fetched(false) => match self.sep {
                Some(e) => (WaitState { phase: WaitPhase::Checking, ..self }, WaitAction::CheckValid(e)),
                None => (WaitState { phase: WaitPhase::Sleeping, ..self }, WaitAction::Sleep(self.idle, 0)),
            },
            WaitEvent::Checked(false) => (WaitState { phase: WaitPhase::Over, ..self }, WaitAction::Fail(Error::InvEP)),
            WaitEvent::Checked(true) => (WaitState { phase: WaitPhase::Sleeping, ..self }, WaitAction::Sleep(self.idle, 0)),
            WaitEvent::Slept(Err(e)) => (WaitState { phase: WaitPhase::Over, ..self }, WaitAction::Fail(e)),
            WaitEvent::Slept(Ok(())) => (WaitState { phase: WaitPhase::Fetching, ..self }, WaitAction::Fetch(self.rep)),
        }
    }
}

impl RecvGate {
    /// The receive gate, without a selector, that stands bound to the endpoint `ep` from the
    /// start; it has no buffer yet.
    pub fn new_def(ep: EpId) -> (g: RecvGate)
        ensures
            g@ == (RecvGateView {
                sel: INVALID_SEL,
                keep: false,
                ep: Some(ep),
                buf: 0,
                order: 0,
                free_buf: false,
                free_ep: false,
            }),
    {
        RecvGate {
            cap: Capability::new(INVALID_SEL, CapFlags::const_empty()),
            ep: Some(ep),
            buf: 0,
            order: 0,
            free_buf: false,
            free_ep: false,
        }
    }

    /// Whether making a gate from `args` needs a fresh selector: it does where they name
    /// none.
    pub fn needs_sel(args: &RGateArgs) -> (r: bool)
        ensures
            r == (args@.sel == INVALID_SEL),
    {
        args.sel == INVALID_SEL
    }

    /// The request that creates the receive gate for `args` at the selector they name, else at
    /// `fresh`.
    pub fn create_request(args: &RGateArgs, fresh: Selector) -> (r: CreateRGate)
        ensures
            r == (CreateRGate { sel: chosen_sel(args@, fresh), order: args@.order, msg_order: args@.msg_order }),
    {
        let sel = if args.sel == INVALID_SEL { fresh } else { args.sel };
        CreateRGate { sel, order: args.order, msg_order: args.msg_order }
    }

    /// The receive gate for `args`, once the kernel answered `created` to the request
    /// `create_request(args, fresh)`: unbound, without a buffer yet.
    pub fn new_with(args: RGateArgs, fresh: Selector, created: Result<(), Error>) -> (r: Result<RecvGate, Error>)
        ensures
            created is Ok <==> r is Ok,
            created matches Err(e) ==> r == Err::<RecvGate, Error>(e),
            r matches Ok(g) ==> g@ == (RecvGateView {
                sel: chosen_sel(args@, fresh),
                keep: args@.keep,
                ep: None,
                buf: 0,
                order: args@.order,
                free_buf: false,
                free_ep: false,
            }),
    {
        let sel = if args.sel == INVALID_SEL { fresh } else { args.sel };
        match created {
            Ok(()) => Ok(RecvGate {
                cap: Capability::new(sel, args.flags),
                ep: None,
                buf: 0,
                order: args.order,
                free_buf: false,
                free_ep: false,
            }),
            Err(e) => Err(e),
        }
    }

    /// The request that creates the receive gate with a buffer of `2^order` bytes for
    /// messages of at most `2^msg_order` bytes, at the selector `fresh`.
    pub fn new_request(order: i32, msg_order: i32, fresh: Selector) -> (r: CreateRGate)
        ensures
            r == (CreateRGate { sel: fresh, order, msg_order }),
    {
        Self::create_request(&RGateArgs::new().order(order).msg_order(msg_order), fresh)
    }

    /// The receive gate with a buffer of `2^order` bytes for messages of at most `2^msg_order`
    /// bytes, at the selector `fresh`, once the kernel answered `created` to the request
    /// to create it there.
    pub fn new(order: i32, msg_order: i32, fresh: Selector, created: Result<(), Error>) -> (r: Result<RecvGate, Error>)
        ensures
            created is Ok <==> r is Ok,
            created matches Err(e) ==> r == Err::<RecvGate, Error>(e),
            r matches Ok(g) ==> g@ == (RecvGateView {
                sel: fresh,
                keep: false,
                ep: None,
                buf: 0,
                order,
                free_buf: false,
                free_ep: false,
            }),
    {
        Self::new_with(RGateArgs::new().order(order).msg_order(msg_order), fresh, created)
    }

    /// The receive gate at `sel` that someone else created, with a buffer of `2^order` bytes; its
    /// capability is kept.
    pub fn new_bind(sel: Selector, order: i32) -> (g: RecvGate)
        ensures
            g@ == (RecvGateView { sel, keep: true, ep: None, buf: 0, order, free_buf: false, free_ep: false }),
    {
        RecvGate {
            cap: Capability::new(sel, CapFlags::keep_cap()),
            ep: None,
            buf: 0,
            order,
            free_buf: false,
            free_ep: false,
        }
    }

    /// The receive gate's selector.
    pub fn sel(&self) -> (r: Selector)
        ensures
            r == self@.sel,
    {
        self.cap.sel()
    }

    /// The endpoint the receive gate is bound to, if any.
    pub fn ep(&self) -> (r: Option<EpId>)
        ensures
            r == self@.ep,
    {
        self.ep
    }

    /// The address of the receive gate's buffer; 0 while it has none.
    pub fn buffer(&self) -> (r: usize)
        ensures
            r == self@.buf,
    {
        self.buf
    }

    /// The order of the receive gate's buffer: it holds `2^order` bytes.
    pub fn order(&self) -> (r: i32)
        ensures
            r == self@.order,
    {
        self.order
    }

    /// The receive gate's description: its selector, the address of its buffer and the
    /// buffer's size, which the description holds as a 32-bit number.
    pub fn describe(&self) -> (r: String)
        requires
            0 <= self@.order < 32,
        ensures
            r@ == gate_text(self@.sel, self@.buf, pow2(self@.order as nat) as u32),
    {
        proof {
            vstd::bits::lemma_u32_pow2_no_overflow(self.order as nat);
            vstd::bits::lemma_u32_shl_is_mul(1, self.order as u32);
        }
        let size: u32 = 1u32 << (self.order as u32);
        format_gate(self.sel(), self.buf, size)
    }

    /// Whether the receive gate allocated its buffer, and gives it back when it goes.
    pub fn owns_buf(&self) -> (r: bool)
        ensures
            r == self@.free_buf,
    {
        self.free_buf
    }

    /// Whether the receive gate allocated an endpoint, and gives it back when it lets go
    /// of it.
    pub fn owns_ep(&self) -> (r: bool)
        ensures
            r == self@.free_ep,
    {
        self.free_ep
    }

    /// The size of the receive gate's buffer.
    pub fn size(&self) -> (r: usize)
        requires
            0 <= self@.order < usize::BITS,
        ensures
            r == pow2(self@.order as nat),
    {
        order_size(self.order)
    }

    /// The endpoint that fetching, replying and waiting go through: the one the receive gate is
    /// bound to, which it must be.
    pub fn active_ep(&self) -> (r: EpId)
        requires
            self@.ep is Some,
        ensures
            self@.ep == Some(r),
    {
        self.ep.unwrap()
    }

    /// Starts waiting for a message on the receive gate, on behalf of the send gate whose endpoint
    /// is `sep`, if any: the first thing is to fetch.
    pub fn wait(&self, sep: Option<EpId>) -> (r: (WaitState, WaitAction))
        requires
            self@.ep is Some,
        ensures
            Some(r.0.rep) == self@.ep,
            r.0 == (WaitState { rep: r.0.rep, sep, idle: wait_idle(sep), phase: WaitPhase::Fetching }),
            r.1 == WaitAction::Fetch(r.0.rep),
    {
        let rep = self.ep.unwrap();
        let idle = match sep {
            Some(e) => e != SYSC_SEP,
            None => true,
        };
        (WaitState { rep, sep, idle, phase: WaitPhase::Fetching }, WaitAction::Fetch(rep))
    }

    /// Starts binding the receive gate to an endpoint of its own, for the VPE `vpe`: an active
    /// gate stays as it is.
    pub fn activate(&mut self, vpe: Selector) -> (r: (ActivateStep, ActivateAction))
        ensures
            (final(self)@, r.0, r.1) == activate_spec(old(self)@, vpe),
    {
        if self.ep.is_some() {
            (ActivateStep::Finished, ActivateAction::Done(Ok(())))
        } else {
            (ActivateStep::AwaitEp { vpe }, ActivateAction::AllocEp)
        }
    }

    /// Starts binding the receive gate to `ep` for the VPE `vpe`: an active gate stays as it is.
    pub fn activate_ep(&mut self, vpe: Selector, ep: EpId) -> (r: (ActivateStep, ActivateAction))
        requires
            rbuf_size_ok(old(self)@),
        ensures
            (final(self)@, r.0, r.1) == activate_ep_spec(old(self)@, vpe, ep),
    {
        if self.ep.is_some() {
            (ActivateStep::Finished, ActivateAction::Done(Ok(())))
        } else if self.buf == 0 {
            let size = order_size(self.order);
            (ActivateStep::AwaitRbuf { vpe, ep }, ActivateAction::AllocRbuf(size))
        } else {
            let buf = self.buf;
            self.bind(vpe, ep, buf, false)
        }
    }

    /// Binds the unbound gate to `ep` for the VPE `vpe` with the buffer at `addr`.
    pub fn activate_for(&mut self, vpe: Selector, ep: EpId, addr: usize) -> (r: (ActivateStep, ActivateAction))
        requires
            old(self)@.ep is None,
        ensures
            (final(self)@, r.0, r.1) == activate_for_spec(old(self)@, vpe, ep, addr, false),
    {
        self.bind(vpe, ep, addr, false)
    }

    fn bind(&mut self, vpe: Selector, ep: EpId, addr: usize, fresh: bool) -> (r: (ActivateStep, ActivateAction))
        ensures
            (final(self)@, r.0, r.1) == activate_for_spec(old(self)@, vpe, ep, addr, fresh),
    {
        self.ep = Some(ep);
        let sel = self.sel();
        if sel != INVALID_SEL {
            (ActivateStep::AwaitActivate { ep, addr, fresh }, ActivateAction::Activate { vpe, sel, ep, addr })
        } else {
            if fresh {
                self.buf = addr;
                self.free_buf = true;
            }
            (ActivateStep::Finished, ActivateAction::Done(Ok(())))
        }
    }

    /// Takes an activation at `step` on with the answer `ev` to its last action.
    pub fn resume(&mut self, step: ActivateStep, ev: ActivateEvent) -> (r: (ActivateStep, ActivateAction))
        requires
            answers(step, ev),
            resume_ok(old(self)@, step),
        ensures
            (final(self)@, r.0, r.1) == resume_spec(old(self)@, step, ev),
    {
        match step {
            ActivateStep::AwaitEp { vpe } => match ev {
                ActivateEvent::EpAllocated(Ok(ep)) => {
                    self.free_ep = true;
                    (ActivateStep::AwaitReserve { vpe, ep }, ActivateAction::ReserveEp(ep))
                },
                ActivateEvent::EpAllocated(Err(e)) => (ActivateStep::Finished, ActivateAction::Done(Err(e))),
                _ => (step, ActivateAction::Done(Ok(()))),
            },
            ActivateStep::AwaitReserve { vpe, ep } => self.activate_ep(vpe, ep),
            ActivateStep::AwaitRbuf { vpe, ep } => match ev {
                ActivateEvent::RbufAllocated(Ok(addr)) => self.bind(vpe, ep, addr, true),
                ActivateEvent::RbufAllocated(Err(e)) => (ActivateStep::Finished, ActivateAction::Done(Err(e))),
                _ => (step, ActivateAction::Done(Ok(()))),
            },
            ActivateStep::AwaitActivate { ep, addr, fresh } => match ev {
                ActivateEvent::Activated(Ok(())) => {
                    if fresh {
                        self.buf = addr;
                        self.free_buf = true;
                    }
                    (ActivateStep::Finished, ActivateAction::Done(Ok(())))
                },
                ActivateEvent::Activated(Err(e)) => (ActivateStep::Finished, ActivateAction::Done(Err(e))),
                _ => (step, ActivateAction::Done(Ok(()))),
            },
            ActivateStep::Finished => (step, ActivateAction::Done(Ok(()))),
        }
    }

    /// Unbinds the receive gate: the result is the endpoint to give back to the VPE, where the
    /// gate allocated it.
    pub fn deactivate(&mut self) -> (r: Option<EpId>)
        requires
            old(self)@.free_ep ==> old(self)@.ep is Some,
        ensures
            r == (if old(self)@.free_ep { old(self)@.ep } else { None }),
            final(self)@ == (RecvGateView { ep: None, ..old(self)@ }),
    {
        let r = if self.free_ep { Some(self.ep.unwrap()) } else { None };
        self.ep = None;
        r
    }

    /// What letting go of the receive gate asks of the kernel for its capability: nothing
    /// for a kept one, otherwise its revocation. Dropping a receive gate lets go of its
    /// capability after it gave back its buffer and endpoint.
    pub fn release_cap(&self) -> (r: Option<Revoke>)
        ensures
            r == release_of(CapabilityView { sel: self@.sel, keep: self@.keep }),
    {
        self.cap.release()
    }

    /// Lets go of the receive gate, as dropping it does: the results are the buffer and the
    /// endpoint to give back to the VPE, each where the receive gate allocated it.
    pub fn release(&mut self) -> (r: (Option<usize>, Option<EpId>))
        requires
            old(self)@.free_ep ==> old(self)@.ep is Some,
        ensures
            r.0 == (if old(self)@.free_buf { Some(old(self)@.buf) } else { None }),
            r.1 == (if old(self)@.free_ep { old(self)@.ep } else { None }),
            final(self)@ == (RecvGateView { ep: None, ..old(self)@ }),
    {
        let buf = if self.free_buf { Some(self.buf) } else { None };
        let ep = self.deactivate();
        (buf, ep)
    }
}

} // verus!

verus! {

/// Activating a gate that is already bound, by either entry, does nothing and succeeds.
pub proof fn lemma_activate_bound_gate(g: RecvGateView, vpe: Selector, ep: EpId)
    requires
        g.ep is Some,
    ensures
        activate_spec(g, vpe) == (g, ActivateStep::Finished, ActivateAction::Done(Ok(()))),
        activate_ep_spec(g, vpe, ep) == (g, ActivateStep::Finished, ActivateAction::Done(Ok(()))),
{
}

/// When every step succeeds, activating an unbound gate with a selector and without a
/// buffer allocates an endpoint, reserves it, allocates a buffer of `2^order` bytes and
/// asks the kernel to activate the receive gate with both; afterwards the receive gate is bound to that
/// endpoint and that buffer, and letting go of it gives both back.
pub proof fn lemma_activate_allocates_and_release_frees(
    g: RecvGateView,
    vpe: Selector,
    ep: EpId,
    addr: usize,
)
    requires
        g.ep is None,
        g.buf == 0,
        g.sel != INVALID_SEL,
        0 <= g.order < usize::BITS,
    ensures
        ({
            let (g1, s1, a1) = activate_spec(g, vpe);
            let (g2, s2, a2) = resume_spec(g1, s1, ActivateEvent::EpAllocated(Ok(ep)));
            let (g3, s3, a3) = resume_spec(g2, s2, ActivateEvent::EpReserved);
            let (g4, s4, a4) = resume_spec(g3, s3, ActivateEvent::RbufAllocated(Ok(addr)));
            let (g5, s5, a5) = resume_spec(g4, s4, ActivateEvent::Activated(Ok(())));
            &&& a1 == ActivateAction::AllocEp
            &&& a2 == ActivateAction::ReserveEp(ep)
            &&& resume_ok(g2, s2)
            &&& a3 == ActivateAction::AllocRbuf(pow2(g.order as nat) as usize)
            &&& resume_ok(g3, s3)
            &&& a4 == ActivateAction::Activate { vpe, sel: g.sel, ep, addr }
            &&& a5 == ActivateAction::Done(Ok(()))
            &&& s5 == ActivateStep::Finished
            &&& g5 == (RecvGateView { ep: Some(ep), buf: addr, free_buf: true, free_ep: true, ..g })
            &&& (if g5.free_buf { Some(g5.buf) } else { None }) == Some(addr)
            &&& (if g5.free_ep { g5.ep } else { None }) == Some(ep)
        }),
{
}

/// When every step succeeds, activating an unbound gate that already has a buffer uses
/// that buffer and allocates none; the receive gate ends up bound to the new endpoint, and
/// letting go of it gives back the endpoint only.
pub proof fn lemma_activate_keeps_existing_buffer(g: RecvGateView, vpe: Selector, ep: EpId)
    requires
        g.ep is None,
        g.buf != 0,
        !g.free_buf,
        g.sel != INVALID_SEL,
    ensures
        ({
            let (g1, s1, a1) = activate_spec(g, vpe);
            let (g2, s2, a2) = resume_spec(g1, s1, ActivateEvent::EpAllocated(Ok(ep)));
            let (g3, s3, a3) = resume_spec(g2, s2, ActivateEvent::EpReserved);
            let (g4, s4, a4) = resume_spec(g3, s3, ActivateEvent::Activated(Ok(())));
            &&& resume_ok(g2, s2)
            &&& a3 == ActivateAction::Activate { vpe, sel: g.sel, ep, addr: g.buf }
            &&& s4 == ActivateStep::Finished
            &&& a4 == ActivateAction::Done(Ok(()))
            &&& g4 == (RecvGateView { ep: Some(ep), free_ep: true, ..g })
            &&& (if g4.free_buf { Some(g4.buf) } else { None }) == None::<usize>
        }),
{
}

/// An activation that fails at its first step, or at the kernel, ends with that error;
/// where the endpoint allocation fails the receive gate is left as it was.
pub proof fn lemma_activate_failure(g: RecvGateView, vpe: Selector, e: Error, ep: EpId, addr: usize, fresh: bool)
    ensures
        resume_spec(g, ActivateStep::AwaitEp { vpe }, ActivateEvent::EpAllocated(Err(e)))
            == (g, ActivateStep::Finished, ActivateAction::Done(Err(e))),
        resume_spec(g, ActivateStep::AwaitRbuf { vpe, ep }, ActivateEvent::RbufAllocated(Err(e)))
            == (g, ActivateStep::Finished, ActivateAction::Done(Err(e))),
        resume_spec(g, ActivateStep::AwaitActivate { ep, addr, fresh }, ActivateEvent::Activated(Err(e)))
            == (g, ActivateStep::Finished, ActivateAction::Done(Err(e))),
{
}

/// A wait ends exactly when a message was fetched, the send endpoint turned out invalid
/// or a sleep failed; every other answer leads to the next fetch, check or sleep.
pub proof fn lemma_wait_ends(st: WaitState, ev: WaitEvent)
    ensures
        ({
            let (st2, a) = wait_resume_spec(st, ev);
            &&& (st2.phase == WaitPhase::Over) <==> (ev == WaitEvent::Fetched(true) || ev == WaitEvent::Checked(false) || ev matches WaitEvent::Slept(Err(_)))
            &&& st2.rep == st.rep && st2.sep == st.sep && st2.idle == st.idle
            &&& (a is Deliver <==> ev == WaitEvent::Fetched(true))
        }),
{
}

} // verus!

verus! {

/// An unbound receive gate always starts its activation by asking for an endpoint of its
/// own, whatever buffer it has; only a bound one is done at once. So an activation entry
/// that reports success at once leaves the receive gate bound.
pub proof fn lemma_activate_unbound_asks_for_endpoint(g: RecvGateView, vpe: Selector)
    ensures
        g.ep is None ==> activate_spec(g, vpe) == (g, ActivateStep::AwaitEp { vpe }, ActivateAction::AllocEp),
        g.ep is Some ==> activate_spec(g, vpe) == (g, ActivateStep::Finished, ActivateAction::Done(Ok(()))),
        activate_spec(g, vpe).2 == ActivateAction::Done(Ok(())) ==> activate_spec(g, vpe).0.ep is Some,
{
}

/// Binding on a given endpoint leaves the receive gate bound to that endpoint, and a step
/// that reports success leaves it bound.
pub proof fn lemma_activation_binds(g: RecvGateView, vpe: Selector, ep: EpId, addr: usize, fresh: bool)
    ensures
        activate_for_spec(g, vpe, ep, addr, fresh).0.ep == Some(ep),
        activate_ep_spec(g, vpe, ep).2 == ActivateAction::Done(Ok(())) ==> activate_ep_spec(g, vpe, ep).0.ep is Some,
        g.ep is None && g.buf != 0 ==> activate_ep_spec(g, vpe, ep).0.ep == Some(ep),
        g.ep is None && g.buf == 0 ==> activate_ep_spec(g, vpe, ep) == (
            g,
            ActivateStep::AwaitRbuf { vpe, ep },
            ActivateAction::AllocRbuf(pow2(g.order as nat) as usize),
        ),
        g.ep is None && g.buf != 0 && g.sel != INVALID_SEL ==> activate_ep_spec(g, vpe, ep).2
            == (ActivateAction::Activate { vpe, sel: g.sel, ep, addr: g.buf }),
{
}

/// The receive gate comes to own an endpoint only when an endpoint allocation answered
/// with one; no other entry or step changes that ownership. Its buffer ownership changes
/// only by taking a buffer it allocated. No step changes its selector, ownership of its
/// capability or its order.
pub proof fn lemma_ownership_changes(
    g: RecvGateView,
    vpe: Selector,
    ep: EpId,
    addr: usize,
    fresh: bool,
    step: ActivateStep,
    ev: ActivateEvent,
)
    ensures
        activate_spec(g, vpe).0 == g,
        activate_ep_spec(g, vpe, ep).0.free_ep == g.free_ep,
        activate_ep_spec(g, vpe, ep).0.free_buf == g.free_buf,
        activate_ep_spec(g, vpe, ep).0.buf == g.buf,
        activate_for_spec(g, vpe, ep, addr, fresh).0.free_ep == g.free_ep,
        !fresh ==> activate_for_spec(g, vpe, ep, addr, fresh).0.free_buf == g.free_buf,
        !fresh ==> activate_for_spec(g, vpe, ep, addr, fresh).0.buf == g.buf,
        (step is AwaitEp && ev matches ActivateEvent::EpAllocated(Ok(_))) ==> resume_spec(g, step, ev).0.free_ep,
        !(step is AwaitEp && ev matches ActivateEvent::EpAllocated(Ok(_))) ==> resume_spec(g, step, ev).0.free_ep == g.free_ep,
        !(step is AwaitRbuf && ev matches ActivateEvent::RbufAllocated(Ok(_)))
            && !(step matches ActivateStep::AwaitActivate { fresh: true, .. } && ev matches ActivateEvent::Activated(Ok(_)))
            ==> resume_spec(g, step, ev).0.free_buf == g.free_buf && resume_spec(g, step, ev).0.buf == g.buf,
        resume_spec(g, step, ev).0.sel == g.sel,
        resume_spec(g, step, ev).0.keep == g.keep,
        resume_spec(g, step, ev).0.order == g.order,
{
    match step {
        ActivateStep::AwaitReserve { vpe: v, ep: e } => {
            if g.ep is None && g.buf != 0 {
                assert(activate_ep_spec(g, v, e) == activate_for_spec(g, v, e, g.buf, false));
            }
        },
        _ => {},
    }
}

/// A wait sleeps as an idle PE exactly when it does not wait for the reply to a system
/// call. After an empty fetch it checks the send endpoint, whichever it is, where there is
/// one, and otherwise sleeps without a time limit; an invalid send endpoint ends it with
/// `InvEP`, a fetched message with the message, a failed sleep with that error, and a
/// finished sleep leads to the next fetch on the same endpoint.
pub proof fn lemma_wait_steps(st: WaitState, sep: Option<EpId>, e: Error)
    ensures
        wait_idle(sep) <==> sep != Some(SYSC_SEP),
        st.sep matches Some(s) ==> wait_resume_spec(st, WaitEvent::Fetched(false))
            == (WaitState { phase: WaitPhase::Checking, ..st }, WaitAction::CheckValid(s)),
        st.sep is None ==> wait_resume_spec(st, WaitEvent::Fetched(false))
            == (WaitState { phase: WaitPhase::Sleeping, ..st }, WaitAction::Sleep(st.idle, 0)),
        wait_resume_spec(st, WaitEvent::Fetched(true)) == (WaitState { phase: WaitPhase::Over, ..st }, WaitAction::Deliver),
        wait_resume_spec(st, WaitEvent::Checked(false))
            == (WaitState { phase: WaitPhase::Over, ..st }, WaitAction::Fail(Error::InvEP)),
        wait_resume_spec(st, WaitEvent::Checked(true))
            == (WaitState { phase: WaitPhase::Sleeping, ..st }, WaitAction::Sleep(st.idle, 0)),
        wait_resume_spec(st, WaitEvent::Slept(Err(e))) == (WaitState { phase: WaitPhase::Over, ..st }, WaitAction::Fail(e)),
        wait_resume_spec(st, WaitEvent::Slept(Ok(())))
            == (WaitState { phase: WaitPhase::Fetching, ..st }, WaitAction::Fetch(st.rep)),
{
}

/// A receive gate made from arguments takes the selector they name, and a fresh one only
/// where they name none.
pub proof fn lemma_chosen_sel(args: RGateArgsView, fresh: Selector)
    ensures
        args.sel != INVALID_SEL ==> chosen_sel(args, fresh) == args.sel,
        args.sel == INVALID_SEL ==> chosen_sel(args, fresh) == fresh,
{
}

} // verus!
