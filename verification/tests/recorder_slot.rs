//! The one-shot slot of the process-wide recorder.

use argus_events::{
    create_metrics, increment_event_created, init_metrics, render_metrics, Error, ErrorKind,
    Metrics, MetricsSink, PrometheusMetrics, RecorderSlot,
};

#[test]
fn initialization_is_idempotent_and_rendering_follows_it() {
    let mut slot = RecorderSlot::new();
    assert!(!slot.is_installed());

    // before the first initialization nothing can be rendered
    let early = render_metrics(&slot).unwrap_err();
    assert_eq!(early, Error::NotInitialized);
    assert_eq!(early.kind(), ErrorKind::NotInitialized);
    assert_eq!(early.http_status(), 500);
    assert_eq!(early.message(), "Metrics recorder not initialized. Call init_metrics() first.");
    assert_eq!(PrometheusMetrics::new(&slot).render().unwrap_err(), Error::NotInitialized);

    // counting without a recorder is harmless
    increment_event_created();

    // exactly the first initialization installs
    assert_eq!(init_metrics(&mut slot), Ok(true));
    assert!(slot.is_installed());
    for _ in 0..5 {
        assert_eq!(init_metrics(&mut slot), Ok(false));
        assert!(slot.is_installed());
    }

    increment_event_created();
    increment_event_created();
    increment_event_created();
    let text = render_metrics(&slot).expect("an installed recorder renders");
    assert!(text.contains("# TYPE events_created_total counter"), "got '{}'", text);
    assert!(text.contains("events_created_total 3"), "got '{}'", text);

    // a sink made through the filled slot renders the same recorder
    let sink = create_metrics(Some("prom"), &mut slot).expect("the text backend exists");
    assert!(matches!(sink, MetricsSink::Prometheus(_)));
    sink.record_event_created();
    let text = sink.render().expect("a sink over an installed recorder renders");
    assert!(text.contains("events_created_total 4"), "got '{}'", text);

    // the process has one recorder: a second slot cannot install another
    let mut second = RecorderSlot::new();
    let refused = init_metrics(&mut second).unwrap_err();
    assert!(matches!(refused, Error::RecorderInstall(_)));
    assert!(
        refused.message().starts_with(
            "Failed to install Prometheus recorder: failed to install exporter as global recorder"
        ),
        "got '{}'",
        refused.message()
    );
    assert_eq!(refused.kind(), ErrorKind::Backend);
    assert!(!second.is_installed());
    assert!(matches!(
        create_metrics(Some("prom"), &mut second).unwrap_err(),
        Error::RecorderInstall(_)
    ));
}
