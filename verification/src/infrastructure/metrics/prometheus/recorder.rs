//! The process-wide Prometheus recorder, installed at most once.

use metrics_exporter_prometheus::{BuildError, PrometheusBuilder, PrometheusHandle};
use vstd::prelude::*;

use crate::domain::{Error, ErrorView};

verus! {

/// `metrics_exporter_prometheus::PrometheusHandle`, through which a snapshot
/// of the installed recorder is rendered.
#[verifier::external_type_specification]
#[verifier::external_body]
pub struct ExPrometheusHandle(PrometheusHandle);

/// `metrics_exporter_prometheus::BuildError`, why a recorder was not
/// installed.
#[verifier::external_type_specification]
#[verifier::external_body]
pub struct ExBuildError(BuildError);

/// `Clone` for `PrometheusHandle`, which the crate derives over a shared
/// pointer: the copy is a handle to the same recorder.
pub assume_specification[ <PrometheusHandle as Clone>::clone ](
    handle: &PrometheusHandle,
) -> (copy: PrometheusHandle)
    ensures
        copy == *handle,
;

/// `PrometheusHandle::render`: writes out, in the Prometheus text format, what
/// the recorder holds at the moment of the call. Nothing is known of the text.
#[verifier::external_body]
fn snapshot(handle: &PrometheusHandle) -> String {
    handle.render()
}

/// `PrometheusBuilder::new` and `PrometheusBuilder::install_recorder`: builds
/// a recorder with the default settings and tries to make it the recorder of
/// the process. Whether that succeeds depends on what the process has
/// installed before.
#[verifier::external_body]
fn install_recorder() -> Result<PrometheusHandle, BuildError> {
    PrometheusBuilder::new().install_recorder()
}

/// The one-shot slot for the handle of the process-wide recorder. A process
/// keeps one slot for its whole life.
#[derive(Debug)]
pub struct RecorderSlot {
    handle: Option<PrometheusHandle>,
}

impl RecorderSlot {
    /// A recorder was installed through this slot.
    pub closed spec fn installed(&self) -> bool {
        self.handle is Some
    }

    /// The empty slot.
    pub fn new() -> (slot: RecorderSlot)
        ensures
            !slot.installed(),
    {
        RecorderSlot { handle: None }
    }

    /// Whether a recorder was installed through this slot.
    pub fn is_installed(&self) -> (r: bool)
        ensures
            r == self.installed(),
    {
        self.handle.is_some()
    }
}

impl Clone for RecorderSlot {
    /// A slot that refers to the same recorder, if any.
    fn clone(&self) -> (copy: RecorderSlot)
        ensures
            copy == *self,
    {
        match &self.handle {
            Some(handle) => RecorderSlot { handle: Some(handle.clone()) },
            None => RecorderSlot { handle: None },
        }
    }
}

/// `Display` for `BuildError`, through `to_string`: the installer's complaint
/// as a text. Nothing is claimed of the text.
#[verifier::external_body]
fn complaint_of(error: &BuildError) -> String {
    error.to_string()
}

/// What an initialization reports, given whether the slot was filled before
/// it and whether an installation, where one is tried, succeeds: `Ok(false)`
/// for a slot that was filled, `Ok(true)` for the installation that fills it,
/// and a failure where the installation fails.
pub open spec fn init_outcome(installed_before: bool, install_succeeds: bool) -> Result<bool, ()> {
    if installed_before {
        Ok(false)
    } else if install_succeeds {
        Ok(true)
    } else {
        Err(())
    }
}

/// What a result of an initialization reports. Its only failure is
/// `RecorderInstall`.
pub open spec fn reported(r: Result<bool, Error>) -> Result<bool, ()> {
    match r {
        Ok(installed) => Ok(installed),
        Err(_) => Err(()),
    }
}

/// Whether the slot is filled after an initialization.
pub open spec fn installed_after(installed_before: bool, install_succeeds: bool) -> bool {
    installed_before || install_succeeds
}

/// Whether the slot of a process is filled after a run of initializations
/// that began on the empty slot. `attempts` says of each call whether an
/// installation, where the call tries one, succeeds.
pub open spec fn filled_after(attempts: Seq<bool>) -> bool
    decreases attempts.len(),
{
    if attempts.len() == 0 {
        false
    } else {
        installed_after(filled_after(attempts.drop_last()), attempts.last())
    }
}

/// What the call at position `n` of such a run reports.
pub open spec fn report(attempts: Seq<bool>, n: int) -> Result<bool, ()> {
    init_outcome(filled_after(attempts.take(n)), attempts[n])
}

/// Initialization is idempotent: once a call has succeeded, the slot stays
/// filled, and every later call reports `Ok(false)`, whatever an installation
/// would have done. So at most one call of a run installs a recorder, and no
/// call after a success fails.
pub proof fn lemma_init_is_idempotent(attempts: Seq<bool>, first: int, later: int)
    requires
        0 <= first < later < attempts.len(),
        report(attempts, first) is Ok,
    ensures
        filled_after(attempts.take(later)),
        filled_after(attempts.take(later + 1)),
        report(attempts, later) == init_outcome(true, false),
    decreases later - first,
{
    assert(attempts.take(first + 1).drop_last() =~= attempts.take(first));
    assert(attempts.take(first + 1).last() == attempts[first]);
    assert(filled_after(attempts.take(first + 1)));
    if first + 1 < later {
        assert(report(attempts, first + 1) is Ok);
        lemma_init_is_idempotent(attempts, first + 1, later);
    } else {
        assert(attempts.take(later + 1).drop_last() =~= attempts.take(later));
    }
}

/// Puts the result of an installation into the slot. A slot that is filled
/// keeps what it has; a failed installation is reported as
/// `RecorderInstall`, with the installer's complaint.
pub fn settle_install(
    slot: &mut RecorderSlot,
    outcome: Result<PrometheusHandle, BuildError>,
) -> (r: Result<bool, Error>)
    ensures
        reported(r) == init_outcome(old(slot).installed(), outcome is Ok),
        r is Err ==> r->Err_0 is RecorderInstall,
        final(slot).installed() == installed_after(old(slot).installed(), outcome is Ok),
        old(slot).installed() || outcome is Err ==> *final(slot) == *old(slot),
{
    if slot.handle.is_some() {
        return Ok(false);
    }
    match outcome {
        Ok(handle) => {
            slot.handle = Some(handle);
            Ok(true)
        },
        Err(error) => Err(Error::RecorderInstall(complaint_of(&error))),
    }
}

/// Installs the Prometheus recorder for the process and keeps its handle in
/// the slot. Safe to call any number of times: on a filled slot it returns
/// `Ok(false)` and changes nothing. Returns `Ok(true)` where this call
/// installed the recorder, and `RecorderInstall` where it could not.
pub fn init_metrics(slot: &mut RecorderSlot) -> (r: Result<bool, Error>)
    ensures
        r is Err ==> r->Err_0 is RecorderInstall,
        old(slot).installed() ==> reported(r) == init_outcome(true, false) && *final(slot) == *old(
            slot,
        ),
        !old(slot).installed() ==> {
            ||| reported(r) == init_outcome(false, true) && final(slot).installed()
            ||| reported(r) == init_outcome(false, false) && *final(slot) == *old(slot)
        },
{
    if slot.handle.is_some() {
        return Ok(false);
    }
    let outcome = install_recorder();
    settle_install(slot, outcome)
}

/// Renders the current metrics in the Prometheus text format. Fails, with
/// `NotInitialized`, exactly where no recorder was installed through the
/// slot.
pub fn render_metrics(slot: &RecorderSlot) -> (r: Result<String, Error>)
    ensures
        r is Ok <==> slot.installed(),
        r is Err ==> r->Err_0@ == ErrorView::NotInitialized,
{
    match &slot.handle {
        Some(handle) => Ok(snapshot(handle)),
        None => Err(Error::NotInitialized),
    }
}

} // verus!
