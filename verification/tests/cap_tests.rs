use m3::cap::{CapFlags, Capability, KEEP_CAP};
use m3::errors::Error;
use m3::kif::{CapRngDesc, CapType, Revoke};
use m3::sem::{CreateSem, SemCtrl, SemOp, Semaphore};

fn revoke_of(sel: u64) -> Revoke {
    Revoke { vpe: 0, crd: CapRngDesc::new(CapType::Object, sel, 1), own: true }
}

#[test]
fn flags() {
    assert!(CapFlags::const_empty().is_empty());
    assert_eq!(CapFlags::empty().bits(), 0);
    assert_eq!(CapFlags::keep_cap().bits(), KEEP_CAP);
    assert!(CapFlags::keep_cap().keeps_cap());
    assert!(CapFlags::from_bits_truncate(0x3).keeps_cap());
    assert!(!CapFlags::from_bits_truncate(0x2).keeps_cap());
    assert_eq!(CapFlags::from_bits_truncate(0xFF).bits(), 1);
}

#[test]
fn capability_accessors() {
    let mut c = Capability::new(42, CapFlags::empty());
    assert_eq!(c.sel(), 42);
    assert!(c.flags().is_empty());
    c.set_flags(CapFlags::keep_cap());
    assert_eq!(c.sel(), 42);
    assert!(c.flags().keeps_cap());
}

#[test]
fn owned_capability_is_revoked_on_release_and_rebind() {
    let mut c = Capability::new(42, CapFlags::empty());
    assert_eq!(c.release(), Some(revoke_of(42)));
    assert_eq!(c.rebind(7), Some(revoke_of(42)));
    assert_eq!(c.sel(), 7);
    assert_eq!(c.release(), Some(revoke_of(7)));
}

#[test]
fn kept_capability_is_never_revoked() {
    let mut c = Capability::new(42, CapFlags::keep_cap());
    assert_eq!(c.release(), None);
    assert_eq!(c.rebind(9), None);
    assert_eq!(c.sel(), 9);
    assert!(c.flags().keeps_cap());
}

#[test]
fn semaphore_attach() {
    let s = Semaphore::attach(10, Ok(())).unwrap();
    assert_eq!(s.sel(), 10);
    assert_eq!(s.release(), None);
    assert_eq!(Semaphore::attach(10, Err(Error::Code(4))).unwrap_err(), Error::Code(4));
}

#[test]
fn semaphore_create() {
    let s = Semaphore::create(11, Ok(())).unwrap();
    assert_eq!(s.sel(), 11);
    assert_eq!(s.release(), Some(revoke_of(11)));
    assert_eq!(Semaphore::create(11, Err(Error::Code(2))).unwrap_err(), Error::Code(2));
}

#[test]
fn semaphore_bind_up_down() {
    let s = Semaphore::bind(12);
    assert_eq!(s.sel(), 12);
    assert_eq!(s.release(), None);
    assert_eq!(s.up(), SemCtrl { sel: 12, op: SemOp::Up });
    assert_eq!(s.down(), SemCtrl { sel: 12, op: SemOp::Down });
}

#[test]
fn semaphore_requests() {
    assert_eq!(Semaphore::create_request(11, 3), CreateSem { sel: 11, value: 3 });
    let r = Semaphore::attach_request(10, "mysem");
    assert_eq!(r.sel, 10);
    assert_eq!(r.name, "mysem");
}
