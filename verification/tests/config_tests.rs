use vl6180x::config::config_is_wf;
use vl6180x::config::AmbientInterruptMode;
use vl6180x::config::Config;
use vl6180x::config::RangeInterruptMode;
use vl6180x::error::Error;

#[test]
fn defaults_match_application_note() {
    let c = Config::new();
    assert_eq!(c.ptp_offset, 0);
    assert_eq!(c.address, 0x29);
    assert_eq!(c.range_scaling, 1);
    assert_eq!(c.ambient_scaling, 1);
    assert_eq!(c.poll_max_loop, 500);
    assert_eq!(c.readout_averaging_period_multiplier, 48);
    assert_eq!(c.range_max_convergence_time, 49);
    assert_eq!(c.range_inter_measurement_period, 100);
    assert_eq!(c.range_vhv_recalibration_rate, 255);
    assert_eq!(c.ambient_analogue_gain_level, 0);
    assert_eq!(c.ambient_integration_period, 100);
    assert_eq!(c.ambient_inter_measurement_period, 500);
    assert!(matches!(c.range_interrupt_mode, RangeInterruptMode::NewSampleReady));
    assert!(matches!(c.ambient_interrupt_mode, AmbientInterruptMode::NewSampleReady));
    assert_eq!(c.range_low_interrupt_threshold, 0);
    assert_eq!(c.range_high_interrupt_threshold, 0xFF);
    assert_eq!(c.ambient_low_interrupt_threshold, 0);
    assert_eq!(c.ambient_high_interrupt_threshold, 0xFFFF);
}

#[test]
fn range_scaler_accepts_whole_range_and_stores_it() {
    for scaler in 1..=3u8 {
        let mut c = Config::new();
        assert!(c.set_range_result_scaler(scaler).is_ok());
        assert_eq!(c.range_scaling, scaler);
    }
}

#[test]
fn range_scaler_rejects_out_of_bounds_and_keeps_prior_value() {
    let mut c = Config::new();
    c.set_range_result_scaler(2).unwrap();
    let before = c;
    for scaler in [0u8, 4, 100, 255] {
        let r = c.set_range_result_scaler(scaler);
        assert_eq!(r, Err(Error::InvalidConfigurationValue(scaler as u16)));
        assert_eq!(c, before);
    }
}

#[test]
fn ambient_scaler_accepts_whole_range_and_stores_it() {
    for scaler in 1..=15u8 {
        let mut c = Config::new();
        assert!(c.set_ambient_result_scaler(scaler).is_ok());
        assert_eq!(c.ambient_scaling, scaler);
    }
}

#[test]
fn ambient_scaler_rejects_out_of_bounds_and_keeps_prior_value() {
    let mut c = Config::new();
    c.set_ambient_result_scaler(9).unwrap();
    let before = c;
    for scaler in [0u8, 16, 200] {
        let r = c.set_ambient_result_scaler(scaler);
        assert_eq!(r, Err(Error::InvalidConfigurationValue(scaler as u16)));
        assert_eq!(c, before);
    }
}

#[test]
fn convergence_time_bounds() {
    let mut c = Config::new();
    assert!(c.set_range_max_convergence_time(2).is_ok());
    assert_eq!(c.range_max_convergence_time, 2);
    assert!(c.set_range_max_convergence_time(63).is_ok());
    assert_eq!(c.range_max_convergence_time, 63);
    assert_eq!(
        c.set_range_max_convergence_time(1),
        Err(Error::InvalidConfigurationValue(1))
    );
    assert_eq!(
        c.set_range_max_convergence_time(64),
        Err(Error::InvalidConfigurationValue(64))
    );
    assert_eq!(c.range_max_convergence_time, 63);
}

#[test]
fn range_period_accepts_rounded_bound_and_rejects_one_step_below() {
    // Default convergence time 49 ms: (49 + 5) / 0.9 = 60, already a
    // multiple of 10.
    let mut c = Config::new();
    assert_eq!(
        c.set_range_inter_measurement_period(50),
        Err(Error::InvalidConfigurationValue(50))
    );
    assert_eq!(c.range_inter_measurement_period, 100);
    assert!(c.set_range_inter_measurement_period(60).is_ok());
    assert_eq!(c.range_inter_measurement_period, 60);

    // Convergence time 58 ms: (58 + 5) * 10 / 9 = 70, again exact.
    let mut c = Config::new();
    c.set_range_max_convergence_time(58).unwrap();
    assert!(c.set_range_inter_measurement_period(60).is_err());
    assert!(c.set_range_inter_measurement_period(70).is_ok());

    // Convergence time 60 ms: (60 + 5) * 10 / 9 = 72, rounded up to 80.
    let mut c = Config::new();
    c.set_range_max_convergence_time(60).unwrap();
    assert!(c.set_range_inter_measurement_period(70).is_err());
    assert!(c.set_range_inter_measurement_period(80).is_ok());

    // Convergence time 2 ms: the 10 ms floor wins.
    let mut c = Config::new();
    c.set_range_max_convergence_time(2).unwrap();
    assert!(c.set_range_inter_measurement_period(0).is_err());
    assert!(c.set_range_inter_measurement_period(10).is_ok());
}

#[test]
fn range_period_needs_multiple_of_ten_and_upper_bound() {
    let mut c = Config::new();
    assert_eq!(
        c.set_range_inter_measurement_period(95),
        Err(Error::InvalidConfigurationValue(95))
    );
    assert!(c.set_range_inter_measurement_period(2550).is_ok());
    assert_eq!(
        c.set_range_inter_measurement_period(2560),
        Err(Error::InvalidConfigurationValue(2560))
    );
    assert_eq!(c.range_inter_measurement_period, 2550);
}

#[test]
fn range_period_uses_stored_convergence_time_not_a_fresh_one() {
    // The relationship check reads the convergence time stored at call
    // time: lowering it afterwards does not retroactively reject the
    // stored period.
    let mut c = Config::new();
    c.set_range_max_convergence_time(2).unwrap();
    assert!(c.set_range_inter_measurement_period(10).is_ok());
    c.set_range_max_convergence_time(63).unwrap();
    assert_eq!(c.range_inter_measurement_period, 10);
    assert!(c.set_range_inter_measurement_period(10).is_err());
}

#[test]
fn gain_level_bounds() {
    let mut c = Config::new();
    for level in 0..=7u8 {
        assert!(c.set_ambient_analogue_gain_level(level).is_ok());
        assert_eq!(c.ambient_analogue_gain_level, level);
    }
    assert_eq!(
        c.set_ambient_analogue_gain_level(8),
        Err(Error::InvalidConfigurationValue(8))
    );
    assert_eq!(c.ambient_analogue_gain_level, 7);
}

#[test]
fn integration_period_bounds() {
    let mut c = Config::new();
    assert!(c.set_ambient_integration_period(1).is_ok());
    assert!(c.set_ambient_integration_period(256).is_ok());
    assert_eq!(
        c.set_ambient_integration_period(0),
        Err(Error::InvalidConfigurationValue(0))
    );
    assert_eq!(
        c.set_ambient_integration_period(257),
        Err(Error::InvalidConfigurationValue(257))
    );
    assert_eq!(c.ambient_integration_period, 256);
}

#[test]
fn ambient_period_bound_follows_integration_period() {
    // Integration period 256 ms: 256 * 1.1 / 0.9 = 312.9, so 310 must be
    // rejected and 320 accepted.
    let mut c = Config::new();
    c.set_ambient_integration_period(256).unwrap();
    assert_eq!(
        c.set_ambient_inter_measurement_period(310),
        Err(Error::InvalidConfigurationValue(310))
    );
    assert_eq!(c.ambient_inter_measurement_period, 500);
    assert!(c.set_ambient_inter_measurement_period(320).is_ok());
    assert_eq!(c.ambient_inter_measurement_period, 320);
}

#[test]
fn ambient_period_upper_bound_is_2560() {
    let mut c = Config::new();
    assert!(c.set_ambient_inter_measurement_period(2560).is_ok());
    assert_eq!(
        c.set_ambient_inter_measurement_period(2570),
        Err(Error::InvalidConfigurationValue(2570))
    );
    assert_eq!(
        c.set_ambient_inter_measurement_period(125),
        Err(Error::InvalidConfigurationValue(125))
    );
    assert_eq!(c.ambient_inter_measurement_period, 2560);
}

#[test]
fn well_formedness_test_tracks_the_datasheet_bounds() {
    let mut c = Config::new();
    assert!(config_is_wf(&c));
    c.set_ambient_inter_measurement_period(2560).unwrap();
    assert!(config_is_wf(&c));
    // A hand mutation outside any setter can leave the bounds.
    c.range_scaling = 4;
    assert!(!config_is_wf(&c));
    c.range_scaling = 3;
    assert!(config_is_wf(&c));
    c.range_inter_measurement_period = 95;
    assert!(!config_is_wf(&c));
}

#[test]
fn unvalidated_setters_store_their_value() {
    let mut c = Config::new();
    c.set_poll_max_loop(77);
    assert_eq!(c.poll_max_loop, 77);
    c.set_readout_averaging_period_multiplier(10);
    assert_eq!(c.readout_averaging_period_multiplier, 10);
    c.set_vhv_recalibration_rate(0);
    assert_eq!(c.range_vhv_recalibration_rate, 0);
    c.set_range_interrupt_mode(RangeInterruptMode::OutOfWindow);
    assert!(matches!(c.range_interrupt_mode, RangeInterruptMode::OutOfWindow));
    c.set_ambient_interrupt_mode(AmbientInterruptMode::Disabled);
    assert!(matches!(c.ambient_interrupt_mode, AmbientInterruptMode::Disabled));
    c.set_range_low_interrupt_threshold(5);
    c.set_range_high_interrupt_threshold(200);
    assert_eq!(c.range_low_interrupt_threshold, 5);
    assert_eq!(c.range_high_interrupt_threshold, 200);
    c.set_ambient_low_interrupt_threshold(12);
    c.set_ambient_high_interrupt_threshold(60_000);
    assert_eq!(c.ambient_low_interrupt_threshold, 12);
    assert_eq!(c.ambient_high_interrupt_threshold, 60_000);
    c.set_i2c_address(0x30);
    assert_eq!(c.address, 0x30);
}
