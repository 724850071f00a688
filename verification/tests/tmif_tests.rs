use m3::errors::Error;
use m3::kif::Perm;
use m3::tcu::INVALID_EP;
use m3::time::TimeDuration;
use m3::tmif::{
    exit, flush_invalidate, get_result, noop, reg_irq, switch_activity, wait, Operation,
    INVALID_IRQ, OPERATION_COUNT,
};

#[test]
fn operation_numbers_follow_declaration_order() {
    let ops = [
        Operation::Wait,
        Operation::Exit,
        Operation::Yield,
        Operation::MapMem,
        Operation::RegIRQ,
        Operation::TranslFault,
        Operation::FlushInv,
        Operation::InitTLS,
        Operation::Noop,
    ];
    for (i, op) in ops.iter().enumerate() {
        assert_eq!(op.to_usize(), i);
        assert_eq!(Operation::try_from_usize(i), Some(*op));
    }
    assert_eq!(OPERATION_COUNT, 9);
}

#[test]
fn operation_out_of_range_number() {
    assert_eq!(Operation::try_from_usize(9), None);
    assert_eq!(Operation::try_from_usize(usize::MAX), None);
}

#[test]
fn wait_without_anything_uses_none_values() {
    let c = wait(None, None, None);
    assert_eq!(c.op, Operation::Wait);
    assert_eq!(c.args, vec![INVALID_EP as usize, INVALID_IRQ as usize, usize::MAX]);
    assert_eq!(c.args, vec![0xFFFF, 0xFFFF_FFFF, usize::MAX]);
}

#[test]
fn wait_with_endpoint_irq_and_timeout() {
    let c = wait(Some(5), Some(3), Some(TimeDuration::from_millis(2)));
    assert_eq!(c.op, Operation::Wait);
    assert_eq!(c.args, vec![5, 3, 2_000_000]);
}

#[test]
fn wait_timeout_keeps_low_bits_of_nanoseconds() {
    let d = TimeDuration::from_secs(u64::MAX);
    let nanos = d.as_nanos();
    assert_eq!(nanos, u64::MAX as u128 * 1_000_000_000);
    let c = wait(None, None, Some(d));
    assert_eq!(c.args[2], nanos as usize);
}

#[test]
fn durations_in_nanoseconds() {
    assert_eq!(TimeDuration::new(2, 5).as_nanos(), 2_000_000_005);
    assert_eq!(TimeDuration::from_nanos(17).as_nanos(), 17);
    assert_eq!(TimeDuration::from_micros(3).as_nanos(), 3_000);
}

#[test]
fn exit_passes_the_code() {
    let c = exit(7);
    assert_eq!(c.op, Operation::Exit);
    assert_eq!(c.args, vec![7]);
}

#[test]
fn map_passes_address_pages_and_permission_bits() {
    let c = m3::tmif::map(0x4000_0000, 0x1000, 4, Perm::rw());
    assert_eq!(c.op, Operation::MapMem);
    assert_eq!(c.args, vec![0x4000_0000, 0x1000, 4, 3]);
    let c = m3::tmif::map(0, 0, 1, Perm::from_bits_truncate(0xFF));
    assert_eq!(c.args, vec![0, 0, 1, 7]);
}

#[test]
fn single_argument_calls() {
    let c = reg_irq(12);
    assert_eq!(c.op, Operation::RegIRQ);
    assert_eq!(c.args, vec![12]);
    let c = flush_invalidate();
    assert_eq!(c.op, Operation::FlushInv);
    assert_eq!(c.args, vec![0]);
    let c = switch_activity();
    assert_eq!(c.op, Operation::Yield);
    assert_eq!(c.args, vec![0]);
    let c = noop();
    assert_eq!(c.op, Operation::Noop);
    assert_eq!(c.args, vec![0]);
}

#[test]
fn result_codes() {
    assert_eq!(get_result(0), Ok(()));
    assert_eq!(get_result(5), Err(Error::Code(5)));
    assert_eq!(get_result(5), Err(Error::new(5)));
}

#[test]
fn result_code_is_the_low_32_bits() {
    assert_eq!(get_result(0x1_0000_0000), Ok(()));
    assert_eq!(get_result(0x1_0000_0002), Err(Error::Code(2)));
}
