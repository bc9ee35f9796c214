use sensor_node::metrics::{Prometheus, BODY_LEN, CONTENT_TYPE, HEADER, METRIC, VALUE_WIDTH};

#[test]
fn content_type_names_the_exposition_format() {
    assert_eq!(Prometheus.content_type(), "text/plain; version=0.0.4");
    assert_eq!(CONTENT_TYPE, "text/plain; version=0.0.4");
}

#[test]
fn content_length_is_header_metric_and_five_digits() {
    assert_eq!(HEADER.len(), 68);
    assert_eq!(METRIC.len(), 25);
    assert_eq!(VALUE_WIDTH, 5);
    assert_eq!(Prometheus.content_length(), 68 + 25 + 5);
    assert_eq!(Prometheus.content_length(), BODY_LEN);
}

#[test]
fn body_for_seven() {
    let body = Prometheus.write_content(7);
    assert_eq!(
        &body[..],
        "# HELP adc_value The value read from the ADC\n# TYPE adc_value gauge\nadc_value{sensor=\"MQ-2\"} 00007"
            .as_bytes()
    );
    assert_eq!(body.len(), Prometheus.content_length());
}

#[test]
fn body_for_one_hundred_and_twenty_three() {
    let body = Prometheus.write_content(123);
    let text = std::str::from_utf8(&body).unwrap();
    let mut lines = text.split('\n');
    assert_eq!(lines.next(), Some("# HELP adc_value The value read from the ADC"));
    assert_eq!(lines.next(), Some("# TYPE adc_value gauge"));
    assert_eq!(lines.next(), Some("adc_value{sensor=\"MQ-2\"} 00123"));
    assert_eq!(lines.next(), None);
}

#[test]
fn body_has_no_trailing_newline() {
    let body = Prometheus.write_content(0);
    assert_eq!(body[body.len() - 1], b'0');
    assert_eq!(&body[body.len() - 5..], b"00000");
}

#[test]
fn value_is_padded_to_five_digits() {
    for (reading, digits) in [
        (0u16, "00000"),
        (9, "00009"),
        (10, "00010"),
        (99, "00099"),
        (100, "00100"),
        (4095, "04095"),
        (9999, "09999"),
        (10000, "10000"),
        (u16::MAX, "65535"),
    ] {
        let body = Prometheus.write_content(reading);
        assert_eq!(&body[68 + 25..], digits.as_bytes(), "reading {}", reading);
    }
}

#[test]
fn declared_length_matches_the_body_for_every_reading() {
    let declared = Prometheus.content_length();
    let mut reading = 0u16;
    loop {
        let body = Prometheus.write_content(reading);
        assert_eq!(body.len(), declared);
        assert_eq!(&body[..68], HEADER.as_bytes());
        assert_eq!(&body[68..93], METRIC.as_bytes());
        assert_eq!(&body[93..], format!("{:05}", reading).as_bytes());
        if reading == u16::MAX {
            break;
        }
        reading += 1;
    }
}
