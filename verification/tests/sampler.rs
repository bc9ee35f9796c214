use sensor_node::gauge::Gauge;
use sensor_node::sampler::{record_reading, SampleStep, SensorFault, SAMPLE_INTERVAL_SECS};

#[test]
fn reading_is_published() {
    let mut gauge = Gauge::new();
    let step = record_reading(&mut gauge, Ok(1234));
    assert_eq!(gauge.read(), 1234);
    assert_eq!(step, SampleStep { warn: false, sleep_secs: 2 });
}

#[test]
fn fault_keeps_the_value_before_it() {
    let mut gauge = Gauge::new();
    record_reading(&mut gauge, Ok(321));
    let before = gauge.read();
    let step = record_reading(&mut gauge, Err(SensorFault::ConversionFailed));
    assert_eq!(gauge.read(), before);
    assert_eq!(gauge.read(), 321);
    assert_eq!(step, SampleStep { warn: true, sleep_secs: 2 });
}

#[test]
fn fault_before_any_reading_keeps_the_default() {
    let mut gauge = Gauge::new();
    let step = record_reading(&mut gauge, Err(SensorFault::ConversionFailed));
    assert_eq!(gauge.read(), 0);
    assert!(step.warn);
}

#[test]
fn faults_in_a_row_change_nothing() {
    let mut gauge = Gauge::new();
    record_reading(&mut gauge, Ok(77));
    for _ in 0..10 {
        let step = record_reading(&mut gauge, Err(SensorFault::ConversionFailed));
        assert!(step.warn);
        assert_eq!(step.sleep_secs, SAMPLE_INTERVAL_SECS);
        assert_eq!(gauge.read(), 77);
    }
}

#[test]
fn reading_after_a_fault_is_published() {
    let mut gauge = Gauge::new();
    record_reading(&mut gauge, Ok(10));
    record_reading(&mut gauge, Err(SensorFault::ConversionFailed));
    let step = record_reading(&mut gauge, Ok(20));
    assert_eq!(gauge.read(), 20);
    assert!(!step.warn);
}

#[test]
fn interval_is_two_seconds_whatever_came() {
    assert_eq!(SAMPLE_INTERVAL_SECS, 2);
    let mut gauge = Gauge::new();
    assert_eq!(record_reading(&mut gauge, Ok(0)).sleep_secs, 2);
    assert_eq!(record_reading(&mut gauge, Ok(u16::MAX)).sleep_secs, 2);
    assert_eq!(record_reading(&mut gauge, Err(SensorFault::ConversionFailed)).sleep_secs, 2);
}
