//! Metrics backends and the factory that selects one.

pub mod metrics;

use std::time::Instant;
use vstd::prelude::*;

use crate::domain::{Error, ErrorView, Metrics};
use crate::text::same_text;
use metrics::noop::{create as create_noop_metrics, NoopMetrics};
use metrics::prometheus::{create as create_prom_metrics, PrometheusMetrics, RecorderSlot};

verus! {

/// A metrics sink of one of the kinds that the factory knows.
#[derive(Debug)]
pub enum MetricsSink {
    /// Records into the process-wide recorder; renders Prometheus text.
    Prometheus(PrometheusMetrics),
    /// Records nothing; renders the empty text.
    Noop(NoopMetrics),
}

impl Metrics for MetricsSink {
    open spec fn ready(&self) -> bool {
        match self {
            MetricsSink::Prometheus(prometheus) => prometheus.ready(),
            MetricsSink::Noop(noop) => noop.ready(),
        }
    }

    fn render(&self) -> (r: Result<String, Error>)
        ensures
            self is Noop ==> r is Ok && r->Ok_0@.len() == 0,
    {
        match self {
            MetricsSink::Prometheus(prometheus) => prometheus.render(),
            MetricsSink::Noop(noop) => noop.render(),
        }
    }

    fn record_event_created(&self) {
        match self {
            MetricsSink::Prometheus(prometheus) => prometheus.record_event_created(),
            MetricsSink::Noop(noop) => noop.record_event_created(),
        }
    }

    fn record_http_request(&self, start: Instant, path: &str, method: &str, status: u16) {
        match self {
            MetricsSink::Prometheus(prometheus) => prometheus.record_http_request(
                start,
                path,
                method,
                status,
            ),
            MetricsSink::Noop(noop) => noop.record_http_request(start, path, method, status),
        }
    }
}

/// The backend that a setting selects: the text backend for `prom`, the null
/// backend for `noop` and for a setting that is absent.
pub open spec fn selects_prom(setting: Option<Seq<char>>) -> bool {
    setting == Some("prom"@)
}

/// The settings that select the null backend.
pub open spec fn selects_noop_metrics(setting: Option<Seq<char>>) -> bool {
    setting is None || setting == Some("noop"@)
}

/// The setting as the sequence of its characters.
pub open spec fn setting_view(setting: Option<&str>) -> Option<Seq<char>> {
    match setting {
        Some(text) => Some(text@),
        None => None,
    }
}

/// Creates the metrics sink that the setting selects. The text backend is
/// installed through the slot, once; any setting but `prom` and `noop` is an
/// error that carries the setting, and leaves the slot as it is.
pub fn create_metrics(setting: Option<&str>, slot: &mut RecorderSlot) -> (r: Result<
    MetricsSink,
    Error,
>)
    ensures
        selects_noop_metrics(setting_view(setting)) ==> r is Ok && r->Ok_0 is Noop && *final(slot)
            == *old(slot),
        selects_prom(setting_view(setting)) ==> {
            &&& old(slot).installed() ==> r is Ok && *final(slot) == *old(slot)
            &&& r is Ok ==> r->Ok_0 is Prometheus && r->Ok_0.ready() && final(slot).installed()
            &&& r is Err ==> r->Err_0 is RecorderInstall && *final(slot) == *old(slot)
        },
        !selects_noop_metrics(setting_view(setting)) && !selects_prom(setting_view(setting)) ==> r
            is Err && r->Err_0@ == ErrorView::UnknownMetricsType(setting_view(setting)->Some_0)
            && *final(slot) == *old(slot),
{
    proof {
        reveal_strlit("prom");
        reveal_strlit("noop");
        assert("prom"@[0] == 'p');
        assert("noop"@[0] == 'n');
    }
    let metrics_type = match setting {
        Some(text) => text,
        None => "noop",
    };
    if same_text(metrics_type, "prom") {
        match create_prom_metrics(slot) {
            Ok(prometheus) => Ok(MetricsSink::Prometheus(prometheus)),
            Err(error) => Err(error),
        }
    } else if same_text(metrics_type, "noop") {
        match create_noop_metrics() {
            Ok(noop) => Ok(MetricsSink::Noop(noop)),
            Err(error) => Err(error),
        }
    } else {
        Err(Error::UnknownMetricsType(metrics_type.to_owned()))
    }
}

} // verus!
