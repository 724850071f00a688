use m3::errors::Error;
use m3::kif::{CapRngDesc, CapType, Revoke, INVALID_SEL};
use m3::rgate::{
    init, rbuf_fits, reply_size, ActivateAction, ActivateEvent, ActivateStep, CreateRGate, RGateArgs, RecvBufConfig,
    RecvGate, WaitAction, WaitEvent, WaitPhase, DEF_MSG_ORD,
};
use m3::tcu::{DEF_REP, SYSC_REP, SYSC_SEP, UPCALL_REP};

const VPE: u64 = 0;

#[test]
fn default_args_and_create_request() {
    let args = RGateArgs::new();
    assert!(RecvGate::needs_sel(&args));
    assert_eq!(
        RecvGate::create_request(&args, 77),
        CreateRGate { sel: 77, order: DEF_MSG_ORD, msg_order: DEF_MSG_ORD }
    );
    let args = RGateArgs::new().order(12).msg_order(8).sel(33);
    assert!(!RecvGate::needs_sel(&args));
    assert_eq!(RecvGate::create_request(&args, 77), CreateRGate { sel: 33, order: 12, msg_order: 8 });
}

#[test]
fn new_gate_takes_selector_and_order() {
    let g = RecvGate::new(10, 10, 40, Ok(())).unwrap();
    assert_eq!(g.sel(), 40);
    assert_eq!(g.ep(), None);
    assert_eq!(g.buffer(), 0);
    assert_eq!(g.size(), 1024);
    let g = RecvGate::new_with(RGateArgs::new().sel(33), 40, Ok(())).unwrap();
    assert_eq!(g.sel(), 33);
    assert_eq!(g.size(), 64);
}

#[test]
fn new_gate_fails_with_the_kernel() {
    assert_eq!(RecvGate::new(10, 10, 40, Err(Error::Code(2))).unwrap_err(), Error::Code(2));
}

#[test]
fn bound_and_default_gates() {
    let g = RecvGate::new_bind(5, 9);
    assert_eq!(g.sel(), 5);
    assert_eq!(g.size(), 512);
    assert_eq!(g.ep(), None);
    let d = RecvGate::new_def(SYSC_REP);
    assert_eq!(d.sel(), INVALID_SEL);
    assert_eq!(d.ep(), Some(SYSC_REP));
    assert_eq!(d.active_ep(), SYSC_REP);
}

#[test]
fn full_activation_allocates_endpoint_and_buffer() {
    let mut g = RecvGate::new(10, 10, 40, Ok(())).unwrap();
    let (s, a) = g.activate(VPE);
    assert!(matches!(a, ActivateAction::AllocEp));
    let (s, a) = g.resume(s, ActivateEvent::EpAllocated(Ok(6)));
    assert!(matches!(a, ActivateAction::ReserveEp(6)));
    let (s, a) = g.resume(s, ActivateEvent::EpReserved);
    assert!(matches!(a, ActivateAction::AllocRbuf(1024)));
    let (s, a) = g.resume(s, ActivateEvent::RbufAllocated(Ok(0x8000)));
    assert!(matches!(a, ActivateAction::Activate { vpe: 0, sel: 40, ep: 6, addr: 0x8000 }));
    assert_eq!(g.ep(), Some(6));
    assert_eq!(g.buffer(), 0);
    let (s, a) = g.resume(s, ActivateEvent::Activated(Ok(())));
    assert!(matches!(a, ActivateAction::Done(Ok(()))));
    assert_eq!(s, ActivateStep::Finished);
    assert_eq!(g.ep(), Some(6));
    assert_eq!(g.buffer(), 0x8000);
    assert!(g.owns_buf());
    assert!(g.owns_ep());
    assert_eq!(g.order(), 10);
    // already active: nothing to do
    let (s, a) = g.activate(VPE);
    assert!(matches!(a, ActivateAction::Done(Ok(()))));
    assert_eq!(s, ActivateStep::Finished);
    // letting go gives back what was allocated
    assert_eq!(g.release(), (Some(0x8000), Some(6)));
    assert_eq!(g.ep(), None);
}

#[test]
fn activation_fails_when_no_endpoint() {
    let mut g = RecvGate::new(10, 10, 40, Ok(())).unwrap();
    let (s, _) = g.activate(VPE);
    let (s, a) = g.resume(s, ActivateEvent::EpAllocated(Err(Error::Code(9))));
    assert!(matches!(a, ActivateAction::Done(Err(Error::Code(9)))));
    assert_eq!(s, ActivateStep::Finished);
    assert_eq!(g.ep(), None);
    assert!(!g.owns_ep());
    assert_eq!(g.release(), (None, None));
}

#[test]
fn activation_fails_after_the_endpoint_was_allocated() {
    let mut g = RecvGate::new(10, 10, 40, Ok(())).unwrap();
    let (s, _) = g.activate(VPE);
    let (s, _) = g.resume(s, ActivateEvent::EpAllocated(Ok(6)));
    let (s, _) = g.resume(s, ActivateEvent::EpReserved);
    let (s, a) = g.resume(s, ActivateEvent::RbufAllocated(Err(Error::Code(5))));
    assert!(matches!(a, ActivateAction::Done(Err(Error::Code(5)))));
    assert_eq!(s, ActivateStep::Finished);
    // the endpoint counts as allocated, but the receive gate is not bound to it
    assert!(g.owns_ep());
    assert_eq!(g.ep(), None);
}

#[test]
fn activation_fails_at_the_kernel() {
    let mut g = RecvGate::new(10, 10, 40, Ok(())).unwrap();
    let (s, a) = g.activate_ep(VPE, 4);
    assert!(matches!(a, ActivateAction::AllocRbuf(1024)));
    let (s, _) = g.resume(s, ActivateEvent::RbufAllocated(Ok(0x9000)));
    let (_, a) = g.resume(s, ActivateEvent::Activated(Err(Error::Code(3))));
    assert!(matches!(a, ActivateAction::Done(Err(Error::Code(3)))));
    // the endpoint stays set, the buffer is not recorded
    assert_eq!(g.ep(), Some(4));
    assert_eq!(g.buffer(), 0);
    assert_eq!(g.deactivate(), None);
    assert_eq!(g.ep(), None);
}

#[test]
fn gate_without_selector_activates_at_once() {
    let mut g = RecvGate::new_def(SYSC_REP);
    assert_eq!(g.deactivate(), None);
    let (s, a) = g.activate_ep(VPE, UPCALL_REP);
    assert!(matches!(a, ActivateAction::AllocRbuf(1)));
    let (s, a) = g.resume(s, ActivateEvent::RbufAllocated(Ok(0x100)));
    assert!(matches!(a, ActivateAction::Done(Ok(()))));
    assert_eq!(s, ActivateStep::Finished);
    assert_eq!(g.ep(), Some(UPCALL_REP));
    assert_eq!(g.buffer(), 0x100);
    assert_eq!(g.release(), (Some(0x100), None));
}

#[test]
fn activate_for_uses_the_given_buffer() {
    let mut g = RecvGate::new_bind(5, 9);
    let (s, a) = g.activate_for(3, 2, 0x7000);
    assert!(matches!(a, ActivateAction::Activate { vpe: 3, sel: 5, ep: 2, addr: 0x7000 }));
    let (_, a) = g.resume(s, ActivateEvent::Activated(Ok(())));
    assert!(matches!(a, ActivateAction::Done(Ok(()))));
    assert_eq!(g.ep(), Some(2));
    assert_eq!(g.buffer(), 0);
    assert_eq!(g.release(), (None, None));
}

#[test]
fn wait_delivers_a_fetched_message() {
    let g = RecvGate::new_def(DEF_REP);
    let (st, a) = g.wait(None);
    assert!(matches!(a, WaitAction::Fetch(DEF_REP)));
    assert!(st.idle);
    let (st, a) = st.resume(WaitEvent::Fetched(false));
    assert!(matches!(a, WaitAction::Sleep(true, 0)));
    let (st, a) = st.resume(WaitEvent::Slept(Ok(())));
    assert!(matches!(a, WaitAction::Fetch(DEF_REP)));
    let (st, a) = st.resume(WaitEvent::Fetched(true));
    assert!(matches!(a, WaitAction::Deliver));
    assert_eq!(st.phase, WaitPhase::Over);
}

#[test]
fn wait_for_syscall_reply_is_not_idle_and_checks_the_send_endpoint() {
    let g = RecvGate::new_def(SYSC_REP);
    let (st, _) = g.wait(Some(SYSC_SEP));
    assert!(!st.idle);
    let (st, a) = st.resume(WaitEvent::Fetched(false));
    assert!(matches!(a, WaitAction::CheckValid(SYSC_SEP)));
    let (st, a) = st.resume(WaitEvent::Checked(true));
    assert!(matches!(a, WaitAction::Sleep(false, 0)));
    let (st, a) = st.resume(WaitEvent::Slept(Ok(())));
    assert!(matches!(a, WaitAction::Fetch(SYSC_REP)));
    let (st, a) = st.resume(WaitEvent::Fetched(false));
    assert!(matches!(a, WaitAction::CheckValid(SYSC_SEP)));
    let (st, a) = st.resume(WaitEvent::Checked(false));
    assert!(matches!(a, WaitAction::Fail(Error::InvEP)));
    assert_eq!(st.phase, WaitPhase::Over);
}

#[test]
fn wait_on_behalf_of_another_send_gate_is_idle() {
    let g = RecvGate::new_def(DEF_REP);
    let (st, _) = g.wait(Some(7));
    assert!(st.idle);
}

#[test]
fn wait_ends_when_sleep_fails() {
    let g = RecvGate::new_def(DEF_REP);
    let (st, _) = g.wait(None);
    let (st, _) = st.resume(WaitEvent::Fetched(false));
    let (st, a) = st.resume(WaitEvent::Slept(Err(Error::Code(8))));
    assert!(matches!(a, WaitAction::Fail(Error::Code(8))));
    assert_eq!(st.phase, WaitPhase::Over);
}

fn config() -> RecvBufConfig {
    RecvBufConfig {
        recvbuf_space: 0x3FC0_0000,
        recvbuf_size_spm: 0x2000,
        sysc_rbuf_size: 512,
        upcall_rbuf_size: 256,
        def_rbuf_size: 300,
    }
}

#[test]
fn default_buffers_with_virtual_memory() {
    let mut s = RecvGate::new_def(SYSC_REP);
    let mut u = RecvGate::new_def(UPCALL_REP);
    let mut d = RecvGate::new_def(DEF_REP);
    init(&mut s, &mut u, &mut d, &config(), true, 0);
    assert_eq!(s.buffer(), 0x3FC0_0000);
    assert_eq!(s.size(), 512);
    assert_eq!(u.buffer(), 0x3FC0_0200);
    assert_eq!(u.size(), 256);
    assert_eq!(d.buffer(), 0x3FC0_0300);
    assert_eq!(d.size(), 512);
    assert_eq!(s.ep(), Some(SYSC_REP));
}

#[test]
fn default_buffers_at_end_of_scratchpad() {
    let mut s = RecvGate::new_def(SYSC_REP);
    let mut u = RecvGate::new_def(UPCALL_REP);
    let mut d = RecvGate::new_def(DEF_REP);
    init(&mut s, &mut u, &mut d, &config(), false, 0x10_0000);
    assert_eq!(s.buffer(), 0xF_E000);
    assert_eq!(u.buffer(), 0xF_E200);
    assert_eq!(d.buffer(), 0xF_E300);
}

#[test]
fn letting_go_revokes_an_owned_capability_only() {
    let g = RecvGate::new(10, 10, 40, Ok(())).unwrap();
    assert_eq!(
        g.release_cap(),
        Some(Revoke { vpe: 0, crd: CapRngDesc::new(CapType::Object, 40, 1), own: true })
    );
    let g = RecvGate::new_bind(5, 9);
    assert_eq!(g.release_cap(), None);
}

#[test]
fn bound_gate_needs_no_buffer_size() {
    let mut g = RecvGate::new_def(SYSC_REP);
    let mut u = RecvGate::new_def(UPCALL_REP);
    let mut d = RecvGate::new_def(DEF_REP);
    let cfg = RecvBufConfig {
        recvbuf_space: 0x1000,
        recvbuf_size_spm: 0,
        sysc_rbuf_size: 0,
        upcall_rbuf_size: 0,
        def_rbuf_size: 0,
    };
    init(&mut g, &mut u, &mut d, &cfg, true, 0);
    let (s, a) = g.activate_ep(VPE, 9);
    assert!(matches!(a, ActivateAction::Done(Ok(()))));
    assert_eq!(s, ActivateStep::Finished);
    assert_eq!(g.ep(), Some(SYSC_REP));
}

#[test]
fn buffer_layout_fits_or_not() {
    assert!(rbuf_fits(&config(), true, 0));
    assert!(rbuf_fits(&config(), false, 0x10_0000));
    assert!(!rbuf_fits(&config(), false, 0x1000));
    let big = RecvBufConfig { recvbuf_space: usize::MAX - 100, ..config() };
    assert!(!rbuf_fits(&big, true, 0));
}

#[test]
fn description_text() {
    let g = RecvGate::new_bind(5, 9);
    assert_eq!(g.describe(), "RecvGate[sel: 5, buf: 0x0, size: 0x200]");
    let mut s = RecvGate::new_def(SYSC_REP);
    let mut u = RecvGate::new_def(UPCALL_REP);
    let mut d = RecvGate::new_def(DEF_REP);
    init(&mut s, &mut u, &mut d, &config(), true, 0);
    assert_eq!(u.describe(), "RecvGate[sel: 65535, buf: 0x3fc00200, size: 0x100]");
    let g = RecvGate::new_bind(1, 31);
    assert_eq!(g.describe(), "RecvGate[sel: 1, buf: 0x0, size: 0x80000000]");
}

#[test]
fn reply_sizes() {
    assert_eq!(reply_size(3, 8), 24);
    assert_eq!(reply_size(0, 8), 0);
}

#[test]
fn new_request_carries_both_orders() {
    assert_eq!(RecvGate::new_request(10, 8, 40), CreateRGate { sel: 40, order: 10, msg_order: 8 });
}
