use sensor_node::routes::{respond, routes, Body, Route, GREETING, METRICS_PATH, ROOT_PATH};

#[test]
fn get_root_says_hello_world() {
    assert_eq!(Route::Root.path(), "/");
    let reply = respond(Route::Root, 0);
    assert_eq!(reply.status, 200);
    assert_eq!(reply.body.as_bytes(), b"Hello World");
    assert_eq!(reply.content_length, 11);
    assert_eq!(reply.content_type, "text/plain; charset=utf-8");
    assert!(matches!(reply.body, Body::Text("Hello World")));
}

#[test]
fn root_does_not_depend_on_the_gauge() {
    for reading in [0u16, 7, u16::MAX] {
        assert_eq!(respond(Route::Root, reading).body.as_bytes(), GREETING.as_bytes());
    }
}

#[test]
fn get_metrics_after_publishing_seven() {
    let mut gauge = sensor_node::gauge::Gauge::new();
    gauge.publish(7);
    assert_eq!(Route::Metrics.path(), "/metrics");
    let reply = respond(Route::Metrics, gauge.read());
    assert_eq!(reply.status, 200);
    assert_eq!(reply.content_type, "text/plain; version=0.0.4");
    assert_eq!(
        reply.body.as_bytes(),
        "# HELP adc_value The value read from the ADC\n# TYPE adc_value gauge\nadc_value{sensor=\"MQ-2\"} 00007"
            .as_bytes()
    );
    assert_eq!(reply.content_length, reply.body.as_bytes().len());
    assert_eq!(reply.content_length, 98);
}

#[test]
fn metrics_follow_the_gauge() {
    let mut gauge = sensor_node::gauge::Gauge::new();
    let before = respond(Route::Metrics, gauge.read());
    assert!(before.body.as_bytes().ends_with(b" 00000"));
    gauge.publish(2048);
    let after = respond(Route::Metrics, gauge.read());
    assert!(after.body.as_bytes().ends_with(b" 02048"));
}

#[test]
fn announced_length_is_the_length_of_the_body_on_every_route() {
    for route in routes() {
        for reading in [0u16, 1, 99, 12345, u16::MAX] {
            let reply = respond(route, reading);
            assert_eq!(reply.content_length, reply.body.as_bytes().len());
        }
    }
}

#[test]
fn table_holds_root_then_metrics() {
    assert_eq!(routes(), [Route::Root, Route::Metrics]);
    assert_eq!(ROOT_PATH, "/");
    assert_eq!(METRICS_PATH, "/metrics");
    assert_ne!(Route::Root.path(), Route::Metrics.path());
}
