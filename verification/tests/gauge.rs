use sensor_node::gauge::{Gauge, GAUGE_DEFAULT};

#[test]
fn gauge_starts_at_default() {
    let gauge = Gauge::new();
    assert_eq!(GAUGE_DEFAULT, 0);
    assert_eq!(gauge.read(), 0);
}

#[test]
fn read_returns_published_value() {
    let mut gauge = Gauge::new();
    gauge.publish(7);
    assert_eq!(gauge.read(), 7);
}

#[test]
fn publish_keeps_only_the_latest() {
    let mut gauge = Gauge::new();
    gauge.publish(123);
    gauge.publish(4095);
    gauge.publish(42);
    assert_eq!(gauge.read(), 42);
    assert_eq!(gauge.read(), 42);
}

#[test]
fn every_word_is_read_back_whole() {
    let mut gauge = Gauge::new();
    for value in [0u16, 1, 0x00ff, 0xff00, 0x8000, 0x7fff, u16::MAX] {
        gauge.publish(value);
        assert_eq!(gauge.read(), value);
    }
}

#[test]
fn reads_between_publishes_see_the_latest() {
    let mut gauge = Gauge::new();
    let mut seen = Vec::new();
    seen.push(gauge.read());
    gauge.publish(300);
    seen.push(gauge.read());
    seen.push(gauge.read());
    gauge.publish(301);
    gauge.publish(0xabcd);
    seen.push(gauge.read());
    gauge.publish(0);
    seen.push(gauge.read());
    assert_eq!(seen, vec![0, 300, 300, 0xabcd, 0]);
}

#[test]
fn read_never_sees_what_was_not_published() {
    let published = [17u16, 4095, 1, 65535];
    let mut gauge = Gauge::new();
    assert_eq!(gauge.read(), GAUGE_DEFAULT);
    for value in published {
        gauge.publish(value);
        for _ in 0..3 {
            assert!(published.contains(&gauge.read()));
            assert_eq!(gauge.read(), value);
        }
    }
}
