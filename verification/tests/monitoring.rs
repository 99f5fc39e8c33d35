use tire_pressure_monitoring_system::alarm::Alarm;
use tire_pressure_monitoring_system::pressure::Pressure;
use tire_pressure_monitoring_system::sensor::{
    PressureSensor, RandomPressureSensor, ScriptedPressureSensor,
};

/// A reading of `value` PSI, as the library carries it.
fn psi(value: f64) -> Pressure {
    Pressure::from_milli_psi((value * 1000.0) as i64)
}

/// A sensor fixed to hand out `value` PSI on every call.
fn fixed_sensor(value: f64) -> ScriptedPressureSensor {
    ScriptedPressureSensor::new(vec![psi(value)])
}

#[test]
fn alarm_is_on_when_pressure_is_above_the_threshold() {
    let mut alarm = Alarm::new(fixed_sensor(22.0));
    alarm.check();
    assert_eq!(true, alarm.is_alarm_on());
}

#[test]
fn alarm_is_on_when_pressure_is_below_the_threshold() {
    let mut alarm = Alarm::new(fixed_sensor(16.0));
    alarm.check();
    assert_eq!(true, alarm.is_alarm_on());
}

#[test]
fn alarm_is_off_when_pressure_is_within_the_thresholds() {
    let mut alarm = Alarm::new(fixed_sensor(19.0));
    alarm.check();
    assert_eq!(false, alarm.is_alarm_on());
}

#[test]
fn alarm_starts_off_before_any_check() {
    let alarm = Alarm::new(fixed_sensor(19.0));
    assert_eq!(false, alarm.is_alarm_on());
}

#[test]
fn alarm_stays_off_at_the_low_boundary() {
    let mut alarm = Alarm::new(fixed_sensor(17.0));
    alarm.check();
    assert_eq!(false, alarm.is_alarm_on());
}

#[test]
fn alarm_stays_off_at_the_high_boundary() {
    let mut alarm = Alarm::new(fixed_sensor(21.0));
    alarm.check();
    assert_eq!(false, alarm.is_alarm_on());
}

#[test]
fn alarm_turns_on_when_a_later_reading_is_out_of_range() {
    let sensor = ScriptedPressureSensor::new(vec![psi(19.0), psi(25.0)]);
    let mut alarm = Alarm::new(sensor);
    alarm.check();
    assert_eq!(false, alarm.is_alarm_on());
    alarm.check();
    assert_eq!(true, alarm.is_alarm_on());
}

#[test]
fn alarm_latches_through_a_later_in_range_reading() {
    let sensor = ScriptedPressureSensor::new(vec![psi(25.0), psi(19.0)]);
    let mut alarm = Alarm::new(sensor);
    alarm.check();
    assert_eq!(true, alarm.is_alarm_on());
    alarm.check();
    assert_eq!(true, alarm.is_alarm_on());
}

#[test]
fn alarm_latches_through_many_in_range_readings() {
    let sensor = ScriptedPressureSensor::new(vec![psi(16.5), psi(19.0)]);
    let mut alarm = Alarm::new(sensor);
    alarm.check();
    assert_eq!(true, alarm.is_alarm_on());
    for _ in 0..50 {
        alarm.check();
        assert_eq!(true, alarm.is_alarm_on());
    }
}

#[test]
fn scripted_sensor_replays_its_script_then_holds_the_last_reading() {
    let mut sensor = ScriptedPressureSensor::new(vec![psi(18.0), psi(20.0), psi(21.5)]);
    assert_eq!(18_000, sensor.pop_next_pressure_psi_value().milli_psi());
    assert_eq!(20_000, sensor.pop_next_pressure_psi_value().milli_psi());
    assert_eq!(21_500, sensor.pop_next_pressure_psi_value().milli_psi());
    assert_eq!(21_500, sensor.pop_next_pressure_psi_value().milli_psi());
    assert_eq!(21_500, sensor.pop_next_pressure_psi_value().milli_psi());
}

#[test]
fn random_sensor_readings_stay_within_its_range() {
    let mut sensor = RandomPressureSensor::new();
    for _ in 0..10_000 {
        let reading = sensor.pop_next_pressure_psi_value();
        let milli = reading.milli_psi();
        assert!(16_000 <= milli && milli < 22_000);
        let value = milli as f64 / 1000.0;
        assert!((16.0..22.0).contains(&value));
    }
}

#[test]
fn alarm_over_the_random_sensor_never_unlatches() {
    let mut alarm = Alarm::new(RandomPressureSensor::new());
    let mut was_on = false;
    for _ in 0..1_000 {
        alarm.check();
        if was_on {
            assert_eq!(true, alarm.is_alarm_on());
        }
        was_on = alarm.is_alarm_on();
    }
}

#[test]
fn pressure_keeps_its_milli_psi_count() {
    assert_eq!(19_250, Pressure::from_milli_psi(19_250).milli_psi());
    assert_eq!(-500, Pressure::from_milli_psi(-500).milli_psi());
    assert_eq!(22_000, psi(22.0).milli_psi());
}
