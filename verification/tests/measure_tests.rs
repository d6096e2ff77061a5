use vl6180x::bus::BusEvent;
use vl6180x::bus::BusOp;
use vl6180x::error::Error;
use vl6180x::measure::Channel;
use vl6180x::measure::ReadMachine;
use vl6180x::status::AmbientStatusErrorCode;
use vl6180x::status::RangeStatusErrorCode;
use vl6180x::status::ambient_status_from_raw;
use vl6180x::status::has_no_ambient_event;
use vl6180x::status::has_no_range_event;
use vl6180x::status::range_status_from_raw;

const ISR_READ: BusOp = BusOp::Read8(0x04F);
const RANGE_STATUS_READ: BusOp = BusOp::Read8(0x04D);
const ALS_STATUS_READ: BusOp = BusOp::Read8(0x04E);
const RANGE_CLEAR: BusOp = BusOp::Write8(0x015, 0x01);
const AMBIENT_CLEAR: BusOp = BusOp::Write8(0x015, 0x02);
const RANGE_VAL_READ: BusOp = BusOp::Read8(0x062);
const ALS_VAL_READ: BusOp = BusOp::Read16(0x050);

/// Drive a machine over canned events, returning every issued operation
/// (including the one from `new`) and the final result.
fn drive(
    mut machine: ReadMachine<()>,
    first_op: BusOp,
    events: &[BusEvent<()>],
) -> (Vec<BusOp>, Result<u16, Error<()>>) {
    let mut ops = vec![first_op];
    for (i, event) in events.iter().enumerate() {
        match machine.step(*event) {
            Some(op) => ops.push(op),
            None => {
                assert_eq!(i, events.len() - 1, "machine finished early");
                return (ops, machine.take_result());
            }
        }
    }
    panic!("machine did not finish");
}

fn clear_count(ops: &[BusOp], clear: BusOp) -> usize {
    ops.iter().filter(|op| **op == clear).count()
}

#[test]
fn range_read_happy_path_scales_and_clears_once() {
    let (m, op) = ReadMachine::<()>::new(Channel::Range, true, 500, 2);
    let (ops, result) = drive(
        m,
        op,
        &[
            BusEvent::Byte(0x00),  // quiet: poll again
            BusEvent::Byte(0x04),  // new sample ready
            BusEvent::Byte(0x00),  // RESULT__RANGE_STATUS: no error
            BusEvent::WriteDone,   // interrupt clear acknowledged
            BusEvent::Byte(50),    // raw range count
        ],
    );
    assert_eq!(result, Ok(100));
    assert_eq!(
        ops,
        vec![ISR_READ, ISR_READ, RANGE_STATUS_READ, RANGE_CLEAR, RANGE_VAL_READ]
    );
    assert_eq!(clear_count(&ops, RANGE_CLEAR), 1);
}

#[test]
fn range_read_mapped_error_still_clears_exactly_once() {
    let (m, op) = ReadMachine::<()>::new(Channel::Range, true, 500, 1);
    let (ops, result) = drive(
        m,
        op,
        &[
            BusEvent::Byte(0x04),
            BusEvent::Byte(0x70),  // MaxConvergence
            BusEvent::WriteDone,
        ],
    );
    assert_eq!(
        result,
        Err(Error::RangeStatusError(RangeStatusErrorCode::MaxConvergence))
    );
    assert_eq!(ops, vec![ISR_READ, RANGE_STATUS_READ, RANGE_CLEAR]);
    assert_eq!(clear_count(&ops, RANGE_CLEAR), 1);
}

#[test]
fn unmapped_status_clears_once_and_reports_unknown_code() {
    // 0x71 overlaps the MaxConvergence pattern in its upper bits but is
    // not itself a documented value.
    let (m, op) = ReadMachine::<()>::new(Channel::Range, true, 500, 1);
    let (ops, result) = drive(
        m,
        op,
        &[BusEvent::Byte(0x04), BusEvent::Byte(0x71), BusEvent::WriteDone],
    );
    assert_eq!(result, Err(Error::UnknownRegisterCode(0x71)));
    assert_ne!(
        result,
        Err(Error::RangeStatusError(RangeStatusErrorCode::MaxConvergence))
    );
    assert_eq!(clear_count(&ops, RANGE_CLEAR), 1);
}

#[test]
fn not_ready_does_not_clear() {
    let (m, op) = ReadMachine::<()>::new(Channel::Range, false, 500, 1);
    let (ops, result) = drive(m, op, &[BusEvent::Byte(0x00)]);
    assert_eq!(result, Err(Error::ResultNotReady));
    assert_eq!(ops, vec![ISR_READ]);
    assert_eq!(clear_count(&ops, RANGE_CLEAR), 0);
    assert_eq!(clear_count(&ops, AMBIENT_CLEAR), 0);
}

#[test]
fn nonblocking_proceeds_when_event_present() {
    let (m, op) = ReadMachine::<()>::new(Channel::Ambient, false, 500, 1);
    let (ops, result) = drive(
        m,
        op,
        &[
            BusEvent::Byte(0x20),  // ambient new sample ready
            BusEvent::Byte(0x00),  // RESULT__ALS_STATUS: no error
            BusEvent::WriteDone,
            BusEvent::Word(1234),
        ],
    );
    assert_eq!(result, Ok(1234));
    assert_eq!(
        ops,
        vec![ISR_READ, ALS_STATUS_READ, AMBIENT_CLEAR, ALS_VAL_READ]
    );
}

#[test]
fn blocking_timeout_after_exactly_budget_polls() {
    let budget = 4u16;
    let (mut m, first) = ReadMachine::<()>::new(Channel::Range, true, budget, 1);
    let mut ops = vec![first];
    let mut result = None;
    for _ in 0..budget {
        match m.step(BusEvent::Byte(0x00)) {
            Some(op) => ops.push(op),
            None => {
                result = Some(m.take_result());
                break;
            }
        }
    }
    // Exactly `budget` interrupt-status polls, then Timeout: not one
    // more, not one fewer.
    assert_eq!(result, Some(Err(Error::Timeout)));
    assert_eq!(ops.len(), budget as usize);
    assert!(ops.iter().all(|op| *op == ISR_READ));
}

#[test]
fn blocking_with_budget_one_times_out_on_first_quiet_poll() {
    let (mut m, first) = ReadMachine::<()>::new(Channel::Ambient, true, 1, 1);
    assert_eq!(first, ISR_READ);
    assert_eq!(m.step(BusEvent::<()>::Byte(0x00)), None);
    assert_eq!(m.take_result(), Err(Error::Timeout));
}

#[test]
fn bus_failure_mid_poll_surfaces_bus_error() {
    let (mut m, _) = ReadMachine::<()>::new(Channel::Range, true, 500, 1);
    assert_eq!(m.step(BusEvent::Failed(())), None);
    assert_eq!(m.take_result(), Err(Error::BusError(())));
}

#[test]
fn ambient_unmapped_status_is_distinct_from_mapped_errors() {
    let (m, op) = ReadMachine::<()>::new(Channel::Ambient, true, 500, 1);
    let (ops, result) = drive(
        m,
        op,
        &[BusEvent::Byte(0x20), BusEvent::Byte(0x11), BusEvent::WriteDone],
    );
    assert_eq!(result, Err(Error::UnknownRegisterCode(0x11)));
    assert_eq!(clear_count(&ops, AMBIENT_CLEAR), 1);

    let (m, op) = ReadMachine::<()>::new(Channel::Ambient, true, 500, 1);
    let (_, result) = drive(
        m,
        op,
        &[BusEvent::Byte(0x20), BusEvent::Byte(0x10), BusEvent::WriteDone],
    );
    assert_eq!(
        result,
        Err(Error::AmbientStatusError(AmbientStatusErrorCode::OverflowError))
    );
}

#[test]
fn status_tables_decode_only_documented_values() {
    assert_eq!(range_status_from_raw(0x00), Some(RangeStatusErrorCode::NoError));
    assert_eq!(
        range_status_from_raw(0x10),
        Some(RangeStatusErrorCode::VcselContinuityTest)
    );
    assert_eq!(
        range_status_from_raw(0xF0),
        Some(RangeStatusErrorCode::RangingAlgoOverflow)
    );
    assert_eq!(range_status_from_raw(0x90), None);
    assert_eq!(range_status_from_raw(0xA0), None);
    assert_eq!(range_status_from_raw(0x01), None);
    assert_eq!(ambient_status_from_raw(0x00), Some(AmbientStatusErrorCode::NoError));
    assert_eq!(
        ambient_status_from_raw(0x20),
        Some(AmbientStatusErrorCode::UnderflowError)
    );
    assert_eq!(ambient_status_from_raw(0x30), None);
}

#[test]
fn interrupt_status_bit_classes() {
    assert!(has_no_range_event(0x00));
    assert!(has_no_range_event(0x38));
    assert!(!has_no_range_event(0x04));
    assert!(has_no_ambient_event(0x07));
    assert!(!has_no_ambient_event(0x20));
}
