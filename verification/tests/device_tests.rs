use vl6180x::bus::BusEvent;
use vl6180x::bus::BusOp;
use vl6180x::config::Config;
use vl6180x::convert::ambient_to_millilux;
use vl6180x::convert::range_to_mm;
use vl6180x::device::DriverMode;
use vl6180x::device::VL6180X;
use vl6180x::device::clear_all_interrupts_op;
use vl6180x::device::clear_ambient_interrupt_op;
use vl6180x::device::clear_error_interrupt_op;
use vl6180x::device::clear_range_interrupt_op;
use vl6180x::device::read_model_id_op;
use vl6180x::error::Error;
use vl6180x::init::ScalingSequencer;
use vl6180x::init::boot_poll_op;
use vl6180x::init::boot_sentinel_seen;
use vl6180x::init::config_init_applicable;

#[test]
fn raw_range_to_mm_multiplies_by_scaler() {
    // Raw range 50 with scaler 2 is 100 mm.
    let mut config = Config::new();
    config.set_range_result_scaler(2).unwrap();
    let device = VL6180X::new(config);
    assert_eq!(device.convert_raw_range_to_mm(50), 100);
    assert_eq!(range_to_mm(1, 50), 50);
    assert_eq!(range_to_mm(3, 50), 150);
    assert_eq!(range_to_mm(3, 255), 765);
}

#[test]
fn raw_ambient_to_millilux_default_config() {
    // Gain level 0 (gain 1.01), integration period 100 ms, raw 100:
    // (0.32 * 100 / 1.01) * (100 / 100) = 31.683... lux.
    let device = VL6180X::new(Config::new());
    let millilux = device.convert_raw_ambient_to_millilux(100);
    assert_eq!(millilux, 31_683);
    let expected: f64 = (0.32 * 100.0 / 1.01) * (100.0 / 100.0);
    assert!((millilux as f64 / 1000.0 - expected).abs() < 0.001);
}

#[test]
fn raw_ambient_to_millilux_other_gains() {
    // Gain level 6 is a gain of exactly 20: 32 * raw / (20 * period) lux.
    assert_eq!(ambient_to_millilux(6, 100, 1000), 16_000);
    // Gain level 7 (gain 40), period 1 ms, raw 1: 0.8 lux.
    assert_eq!(ambient_to_millilux(7, 1, 1), 800);
    // Truncation, never rounding up.
    assert_eq!(ambient_to_millilux(0, 100, 1), 316);
}

#[test]
fn readdressing_rejects_out_of_range_addresses() {
    // 0x07 and 0x78 are rejected with InvalidAddress and the stored
    // address is unchanged; 0x08 and 0x77 are accepted.
    let mut device = VL6180X::new(Config::new());
    for bad in [0x07u8, 0x78, 0x00, 0xFF] {
        assert_eq!(
            device.begin_change_i2c_address::<()>(bad),
            Err(Error::InvalidAddress(bad))
        );
        assert_eq!(
            device.finish_change_i2c_address::<()>(bad, Ok(())),
            Err(Error::InvalidAddress(bad))
        );
        assert_eq!(device.config.address, 0x29);
    }
    for good in [0x08u8, 0x77] {
        assert_eq!(
            device.begin_change_i2c_address::<()>(good),
            Ok(BusOp::Write8(0x212, good))
        );
        assert!(device.finish_change_i2c_address::<()>(good, Ok(())).is_ok());
        assert_eq!(device.config.address, good);
    }
}

#[test]
fn readdressing_keeps_address_when_the_write_fails() {
    let mut device = VL6180X::new(Config::new());
    assert_eq!(
        device.finish_change_i2c_address(0x40, Err(7u8)),
        Err(Error::BusError(7u8))
    );
    assert_eq!(device.config.address, 0x29);
}

#[test]
fn power_sequencing_tracks_pin_outcomes() {
    let mut device = VL6180X::new(Config::new());
    assert!(matches!(device.mode, DriverMode::PoweredOff));
    assert_eq!(
        device.power_on(Err(3u8)),
        Err(Error::GpioPinError(3u8))
    );
    assert!(matches!(device.mode, DriverMode::PoweredOff));
    assert!(device.power_on(Ok::<(), u8>(())).is_ok());
    assert!(matches!(device.mode, DriverMode::AwaitingBoot));
    assert!(device.power_off(Ok::<(), u8>(())).is_ok());
    assert!(matches!(device.mode, DriverMode::PoweredOff));
}

#[test]
fn boot_wait_only_accepts_the_sentinel() {
    assert_eq!(boot_poll_op(), BusOp::Read8(0x016));
    assert!(boot_sentinel_seen(&Ok::<u8, ()>(0x01)));
    assert!(!boot_sentinel_seen(&Ok::<u8, ()>(0x00)));
    assert!(!boot_sentinel_seen(&Ok::<u8, ()>(0x02)));
    assert!(!boot_sentinel_seen(&Err::<u8, ()>(())));

    let mut device = VL6180X::new(Config::new());
    device.power_on(Ok::<(), ()>(())).unwrap();
    assert!(!device.boot_observe(Ok::<u8, ()>(0x00)));
    assert!(matches!(device.mode, DriverMode::AwaitingBoot));
    assert!(!device.boot_observe(Err::<u8, ()>(())));
    assert!(device.boot_observe(Ok::<u8, ()>(0x01)));
    assert!(matches!(device.mode, DriverMode::Booted));
}

#[test]
fn full_init_replays_the_mandated_register_sequence() {
    let mut device = VL6180X::new(Config::new());
    assert!(config_init_applicable(&device.config));
    device.power_on(Ok::<(), ()>(())).unwrap();
    assert!(device.boot_observe(Ok::<u8, ()>(0x01)));

    let (mut seq, first) = device.start_init::<()>();
    let mut ops = vec![first];
    // Part-to-part offset capture answers 0x0A.
    let mut next = seq.step(BusEvent::Byte(0x0A));
    while let Some(op) = next {
        ops.push(op);
        next = match op {
            BusOp::Read8(0x02D) => seq.step(BusEvent::Byte(0xAA)),
            BusOp::Read8(_) | BusOp::Read16(_) => panic!("unexpected read {op:?}"),
            _ => seq.step(BusEvent::WriteDone),
        };
    }
    assert!(device.finish_init(seq).is_ok());
    assert!(matches!(device.mode, DriverMode::Ready));
    assert_eq!(device.config.ptp_offset, 0x0A);

    // One capture read, fifty writes, one read-modify-write.
    assert_eq!(ops.len(), 53);
    assert_eq!(ops[0], BusOp::Read8(0x024));
    let expected_writes: [BusOp; 50] = [
        BusOp::Write8(0x207, 0x01),
        BusOp::Write8(0x208, 0x01),
        BusOp::Write8(0x096, 0x00),
        BusOp::Write8(0x097, 0xFD),
        BusOp::Write8(0x0E3, 0x01),
        BusOp::Write8(0x0E4, 0x03),
        BusOp::Write8(0x0E5, 0x02),
        BusOp::Write8(0x0E6, 0x01),
        BusOp::Write8(0x0E7, 0x03),
        BusOp::Write8(0x0F5, 0x02),
        BusOp::Write8(0x0D9, 0x05),
        BusOp::Write8(0x0DB, 0xCE),
        BusOp::Write8(0x0DC, 0x03),
        BusOp::Write8(0x0DD, 0xF8),
        BusOp::Write8(0x09F, 0x00),
        BusOp::Write8(0x0A3, 0x3C),
        BusOp::Write8(0x0B7, 0x00),
        BusOp::Write8(0x0BB, 0x3C),
        BusOp::Write8(0x0B2, 0x09),
        BusOp::Write8(0x0CA, 0x09),
        BusOp::Write8(0x198, 0x01),
        BusOp::Write8(0x1B0, 0x17),
        BusOp::Write8(0x1AD, 0x00),
        BusOp::Write8(0x0FF, 0x05),
        BusOp::Write8(0x100, 0x05),
        BusOp::Write8(0x199, 0x05),
        BusOp::Write8(0x1A6, 0x1B),
        BusOp::Write8(0x1AC, 0x3E),
        BusOp::Write8(0x1A7, 0x1F),
        BusOp::Write8(0x030, 0x00),
        BusOp::Write8(0x016, 0x00),        // clear fresh-out-of-reset
        BusOp::Write8(0x10A, 48),          // averaging period multiplier
        BusOp::Write8(0x03F, 0x46),        // analogue gain code, level 0
        BusOp::Write8(0x120, 1),           // ambient result scaler
        BusOp::Write8(0x031, 255),         // VHV repeat rate
        BusOp::Write16(0x040, 99),         // integration period 100 - 1
        BusOp::Write8(0x03E, 49),          // ambient period 500/10 - 1
        BusOp::Write8(0x02E, 0x01),        // force VHV recalibration
        BusOp::Write8(0x01B, 9),           // range period 100/10 - 1
        BusOp::Write8(0x014, 0x24),        // both NewSampleReady interrupts
        BusOp::Write8(0x011, 0x30),        // GPIO1 active-high interrupt
        BusOp::Write8(0x019, 0xFF),        // range high threshold
        BusOp::Write8(0x01A, 0x00),        // range low threshold
        BusOp::Write16(0x03A, 0xFFFF),     // ambient high threshold
        BusOp::Write16(0x03C, 0x0000),     // ambient low threshold
        BusOp::Write8(0x01C, 49),          // max convergence time
        BusOp::Write8(0x2A3, 0x00),        // interleaved mode off
        BusOp::Write16(0x096, 253),        // RANGE_SCALER code for 1x
        BusOp::Write8(0x024, 0x0A),        // rescaled part-to-part offset
        BusOp::Write8(0x021, 20),          // rescaled crosstalk height
    ];
    assert_eq!(&ops[1..51], &expected_writes);
    assert_eq!(ops[51], BusOp::Read8(0x02D));
    // Early convergence estimate stays enabled at 1x scaling.
    assert_eq!(ops[52], BusOp::Write8(0x02D, 0xAB));
}

#[test]
fn init_aborts_on_bus_failure() {
    let mut device = VL6180X::new(Config::new());
    device.power_on(Ok::<(), u8>(())).unwrap();
    assert!(device.boot_observe(Ok::<u8, u8>(0x01)));
    let (mut seq, _) = device.start_init::<u8>();
    assert!(seq.step(BusEvent::Byte(0x00)).is_some());
    assert_eq!(seq.step(BusEvent::Failed(9)), None);
    assert_eq!(device.finish_init(seq), Err(Error::BusError(9)));
    assert!(matches!(device.mode, DriverMode::Booted));
    assert_eq!(device.config.ptp_offset, 0);
}

#[test]
fn rescaling_replays_the_scaling_tail() {
    let mut seqpair = ScalingSequencer::<()>::new(2, 21);
    let mut ops = vec![seqpair.1];
    let seq = &mut seqpair.0;
    for event in [
        BusEvent::WriteDone,
        BusEvent::WriteDone,
        BusEvent::WriteDone,
        BusEvent::Byte(0x01),
        BusEvent::WriteDone,
    ] {
        if let Some(op) = seq.step(event) {
            ops.push(op);
        }
    }
    assert_eq!(
        ops,
        vec![
            BusOp::Write16(0x096, 127),
            BusOp::Write8(0x024, 10),
            BusOp::Write8(0x021, 10),
            BusOp::Read8(0x02D),
            // Early convergence estimate disabled away from 1x scaling.
            BusOp::Write8(0x02D, 0x00),
        ]
    );
}

#[test]
fn device_reads_use_configured_budget_and_scaler() {
    let mut config = Config::new();
    config.set_range_result_scaler(3).unwrap();
    config.set_poll_max_loop(2);
    let mut device = VL6180X::new(config);
    device.mode = DriverMode::Ready;

    let (mut m, first) = device.start_range_read::<()>(true);
    assert_eq!(first, BusOp::Read8(0x04F));
    assert!(m.step(BusEvent::<()>::Byte(0x00)).is_some());
    assert_eq!(m.step(BusEvent::<()>::Byte(0x00)), None);
    assert_eq!(m.take_result(), Err(Error::Timeout));

    let (mut m, _) = device.start_range_read::<()>(true);
    assert!(m.step(BusEvent::<()>::Byte(0x04)).is_some());
    assert!(m.step(BusEvent::<()>::Byte(0x00)).is_some());
    assert!(m.step(BusEvent::<()>::WriteDone).is_some());
    assert_eq!(m.step(BusEvent::<()>::Byte(10)), None);
    assert_eq!(m.take_result(), Ok(30));

    let (mut m, _) = device.start_ambient_read::<()>(false);
    assert_eq!(m.step(BusEvent::<()>::Byte(0x00)), None);
    assert_eq!(m.take_result(), Err(Error::ResultNotReady));
}

#[test]
fn interrupt_clear_and_identification_ops() {
    assert_eq!(clear_range_interrupt_op(), BusOp::Write8(0x015, 0x01));
    assert_eq!(clear_ambient_interrupt_op(), BusOp::Write8(0x015, 0x02));
    assert_eq!(clear_error_interrupt_op(), BusOp::Write8(0x015, 0x04));
    assert_eq!(clear_all_interrupts_op(), BusOp::Write8(0x015, 0x07));
    assert_eq!(read_model_id_op(), BusOp::Read8(0x000));
}

#[test]
fn init_applicability_draws_the_line_at_2550() {
    let mut c = Config::new();
    assert!(config_init_applicable(&c));
    c.set_ambient_inter_measurement_period(2560).unwrap();
    assert!(!config_init_applicable(&c));
    c.set_ambient_inter_measurement_period(2550).unwrap();
    assert!(config_init_applicable(&c));
}
