//! What the slot makes of each outcome of an installation. Nothing here
//! installs a recorder for the process.

use argus_events::{render_metrics, settle_install, Error, RecorderSlot};
use metrics_exporter_prometheus::{BuildError, PrometheusBuilder};

#[test]
fn a_failed_installation_leaves_the_slot_empty() {
    let mut slot = RecorderSlot::new();
    let refused = settle_install(&mut slot, Err(BuildError::EmptyBucketsOrQuantiles)).unwrap_err();
    assert_eq!(
        refused,
        Error::RecorderInstall("bucket bounds/quantiles cannot be empty".to_string())
    );
    assert_eq!(
        refused.message(),
        "Failed to install Prometheus recorder: bucket bounds/quantiles cannot be empty"
    );
    assert!(!slot.is_installed());
    assert_eq!(render_metrics(&slot), Err(Error::NotInitialized));
}

#[test]
fn the_first_handle_fills_the_slot_and_stays() {
    let first = PrometheusBuilder::new().build_recorder();
    let second = PrometheusBuilder::new().build_recorder();
    metrics::with_local_recorder(&first, || argus_events::increment_event_created());

    let mut slot = RecorderSlot::new();
    assert_eq!(settle_install(&mut slot, Ok(first.handle())), Ok(true));
    assert!(slot.is_installed());
    let text = render_metrics(&slot).expect("a filled slot renders");
    assert!(text.contains("events_created_total 1"), "got '{}'", text);

    // a filled slot keeps its handle, whatever comes later
    assert_eq!(settle_install(&mut slot, Ok(second.handle())), Ok(false));
    assert_eq!(settle_install(&mut slot, Err(BuildError::ZeroBucketDuration)), Ok(false));
    assert!(slot.is_installed());
    let text = render_metrics(&slot).expect("a filled slot renders");
    assert!(text.contains("events_created_total 1"), "got '{}'", text);

    // a copy of the slot refers to the same recorder
    let copy = slot.clone();
    assert!(copy.is_installed());
    metrics::with_local_recorder(&first, || argus_events::increment_event_created());
    assert!(render_metrics(&copy).unwrap().contains("events_created_total 2"));
}
