//! Tests for the temperature monitor against hand-computed conversions.

use imxrt_hal::tempmon::{TempSensor, Uninitialized};

/// Pack a calibration fuse word from its three fields.
fn calibration(room_count: u32, hot_count: u32, hot_temp_c: u32) -> u32 {
    (room_count << 20) | (hot_count << 8) | hot_temp_c
}

/// room 1782, hot 1246 at 85 degC: scaler = (85000 - 25000) / 536 = 111.
const ANA1: u32 = (1782 << 20) | (1246 << 8) | 85;

#[test]
fn measure_temp_converts_the_latched_count() {
    let sensor = TempSensor::new(ANA1, 1400);
    let mut monitor = Uninitialized::new(sensor).init();
    assert!(monitor.is_powered_up());

    // 85000 - (1400 - 1246) * 111 = 67906 m degC.
    assert_eq!(monitor.measure_temp(), Ok(67906));
    // The same count stays latched for get_temp.
    assert_eq!(monitor.get_temp(), Ok(67906));
}

#[test]
fn measure_temp_blocks_while_conversion_pending() {
    let mut sensor = TempSensor::new(ANA1, 1400);
    // A measurement was started and the sensor has not finished it.
    sensor.measure_start = true;
    sensor.finished = false;
    let mut monitor = Uninitialized::new(sensor).init();

    assert_eq!(monitor.measure_temp(), Err(nb::Error::WouldBlock));
    // Retrying changes nothing.
    assert_eq!(monitor.measure_temp(), Err(nb::Error::WouldBlock));
}

#[test]
fn powered_down_monitor_reports_the_error() {
    let sensor = TempSensor::new(ANA1, 1400);
    let mut monitor = Uninitialized::new(sensor).init();

    monitor.power_down();
    assert!(!monitor.is_powered_up());
    assert!(matches!(monitor.measure_temp(), Err(nb::Error::Other(_))));
    assert!(matches!(monitor.get_temp(), Err(nb::Error::Other(_))));
    assert!(matches!(monitor.start(), Err(nb::Error::Other(_))));

    monitor.power_up();
    assert!(monitor.is_powered_up());
    assert_eq!(monitor.measure_temp(), Ok(67906));
}

#[test]
fn start_latches_a_measurement() {
    let sensor = TempSensor::new(calibration(1782, 1246, 85), 1300);
    let mut monitor = Uninitialized::new(sensor).init();

    assert_eq!(monitor.start(), Ok(()));
    // 85000 - (1300 - 1246) * 111 = 79006 m degC.
    assert_eq!(monitor.get_temp(), Ok(79006));
    monitor.stop();
    assert_eq!(monitor.get_temp(), Ok(79006));
}

#[test]
fn init_with_measure_freq_yields_a_working_monitor() {
    let sensor = TempSensor::new(ANA1, 1400);
    let mut monitor = Uninitialized::new(sensor).init_with_measure_freq(0x1000);
    assert!(monitor.is_powered_up());
    assert_eq!(monitor.measure_temp(), Ok(67906));
    monitor.set_measure_frequency(0xFFFF);
    assert_eq!(monitor.get_temp(), Ok(67906));
}

#[test]
fn alarm_values_round_trip_through_the_registers() {
    let sensor = TempSensor::new(ANA1, 1400);
    let mut monitor = Uninitialized::new(sensor).init();

    monitor.set_alarm_values(-5_000, 65_000, 95_000);

    // decode(-5000) = 1246 + 90000/111 = 2056; convert back: -4910.
    // decode(65000) = 1246 + 20000/111 = 1426; convert back: 65020.
    // decode(95000) = 1246 - 10000/111 = 1156; convert back: 94990.
    assert_eq!(monitor.alarm_values(), (-4910, 65020, 94990));
}

#[test]
fn conversion_follows_a_negative_slope_calibration() {
    // room 1000 below hot 1246: scaler = 60000 / -246 = -243 (toward zero).
    let sensor = TempSensor::new(calibration(1000, 1246, 85), 1400);
    let mut monitor = Uninitialized::new(sensor).init();

    // 85000 - (1400 - 1246) * (-243) = 122422 m degC.
    assert_eq!(monitor.measure_temp(), Ok(122422));
}
