//! The lines that the control loop reports back to a client.

use crate::metric::{metric_name, metric_to_str, state_name, state_to_str, MetricState, MetricType};
use crate::text::{bool_str, bool_text, decimal, decimal_string};
use vstd::prelude::*;

verus! {

pub open spec fn started_text(k: MetricType, rate: u8) -> Seq<char> {
    "Metric '"@ + metric_name(k) + "' started with rate '"@ + decimal(rate as nat) + "'"@
}

pub open spec fn stopped_text(k: MetricType) -> Seq<char> {
    "Metric '"@ + metric_name(k) + "' stopped"@
}

pub open spec fn join_failed_text() -> Seq<char> {
    "Error while joining thread"@
}

pub open spec fn already_running_text(k: MetricType) -> Seq<char> {
    "Metric '"@ + metric_name(k) + "' already running"@
}

pub open spec fn running_with_rate_text(k: MetricType, rate: u8) -> Seq<char> {
    "'"@ + metric_name(k) + "' metric already running with rate '"@ + decimal(rate as nat) + "'"@
}

pub open spec fn rate_set_text(k: MetricType, rate: u8) -> Seq<char> {
    "'"@ + metric_name(k) + "' metric 'rate' is set to '"@ + decimal(rate as nat) + "'"@
}

pub open spec fn rate_unchanged_text(k: MetricType, rate: u8) -> Seq<char> {
    "'"@ + metric_name(k) + "' metric 'rate' is is already '"@ + decimal(rate as nat) + "'"@
}

pub open spec fn enabled_set_text(k: MetricType, enabled: bool) -> Seq<char> {
    "'"@ + metric_name(k) + "' metric 'enabled' is set to '"@ + bool_text(enabled) + "'"@
}

pub open spec fn enabled_unchanged_text(k: MetricType, enabled: bool) -> Seq<char> {
    "'"@ + metric_name(k) + "' metric 'enabled' is is already '"@ + bool_text(enabled) + "'"@
}

pub open spec fn already_stopped_text(k: MetricType) -> Seq<char> {
    "Metric '"@ + metric_name(k) + "' already stopped"@
}

pub open spec fn disabled_text(k: MetricType) -> Seq<char> {
    "Metric '"@ + metric_name(k) + "' disabled"@
}

pub open spec fn all_stopped_text() -> Seq<char> {
    "All metrics already stopped"@
}

pub open spec fn in_state_text(k: MetricType, state: MetricState, rate: u8) -> Seq<char> {
    "Metric '"@ + metric_name(k) + "' is in state '"@ + state_name(state) + "' rate '"@ + decimal(
        rate as nat,
    ) + "'"@
}

pub open spec fn none_in_state_text(state: MetricState) -> Seq<char> {
    "No metrics in state '"@ + state_name(state) + "'"@
}

pub open spec fn saved_text() -> Seq<char> {
    "Config successfully saved"@
}

/// Three pieces of text, one after the other.
pub fn join3(a: &str, b: &str, c: &str) -> (s: String)
    ensures
        s@ == a@ + b@ + c@,
{
    let mut s = String::from_str(a);
    s.append(b);
    s.append(c);
    s
}

/// Five pieces of text, one after the other.
pub fn join5(a: &str, b: &str, c: &str, d: &str, e: &str) -> (s: String)
    ensures
        s@ == a@ + b@ + c@ + d@ + e@,
{
    let mut s = String::from_str(a);
    s.append(b);
    s.append(c);
    s.append(d);
    s.append(e);
    s
}

pub fn started(k: MetricType, rate: u8) -> (s: String)
    ensures
        s@ == started_text(k, rate),
{
    let r = decimal_string(rate as u64);
    join5("Metric '", metric_to_str(k), "' started with rate '", r.as_str(), "'")
}

pub fn stopped(k: MetricType) -> (s: String)
    ensures
        s@ == stopped_text(k),
{
    join3("Metric '", metric_to_str(k), "' stopped")
}

pub fn join_failed() -> (s: String)
    ensures
        s@ == join_failed_text(),
{
    String::from_str("Error while joining thread")
}

pub fn already_running(k: MetricType) -> (s: String)
    ensures
        s@ == already_running_text(k),
{
    join3("Metric '", metric_to_str(k), "' already running")
}

pub fn running_with_rate(k: MetricType, rate: u8) -> (s: String)
    ensures
        s@ == running_with_rate_text(k, rate),
{
    let r = decimal_string(rate as u64);
    join5("'", metric_to_str(k), "' metric already running with rate '", r.as_str(), "'")
}

pub fn rate_set(k: MetricType, rate: u8) -> (s: String)
    ensures
        s@ == rate_set_text(k, rate),
{
    let r = decimal_string(rate as u64);
    join5("'", metric_to_str(k), "' metric 'rate' is set to '", r.as_str(), "'")
}

pub fn rate_unchanged(k: MetricType, rate: u8) -> (s: String)
    ensures
        s@ == rate_unchanged_text(k, rate),
{
    let r = decimal_string(rate as u64);
    join5("'", metric_to_str(k), "' metric 'rate' is is already '", r.as_str(), "'")
}

pub fn enabled_set(k: MetricType, enabled: bool) -> (s: String)
    ensures
        s@ == enabled_set_text(k, enabled),
{
    join5("'", metric_to_str(k), "' metric 'enabled' is set to '", bool_str(enabled), "'")
}

pub fn enabled_unchanged(k: MetricType, enabled: bool) -> (s: String)
    ensures
        s@ == enabled_unchanged_text(k, enabled),
{
    join5("'", metric_to_str(k), "' metric 'enabled' is is already '", bool_str(enabled), "'")
}

pub fn already_stopped(k: MetricType) -> (s: String)
    ensures
        s@ == already_stopped_text(k),
{
    join3("Metric '", metric_to_str(k), "' already stopped")
}

pub fn disabled(k: MetricType) -> (s: String)
    ensures
        s@ == disabled_text(k),
{
    join3("Metric '", metric_to_str(k), "' disabled")
}

pub fn all_stopped() -> (s: String)
    ensures
        s@ == all_stopped_text(),
{
    String::from_str("All metrics already stopped")
}

pub fn in_state(k: MetricType, state: MetricState, rate: u8) -> (s: String)
    ensures
        s@ == in_state_text(k, state, rate),
{
    let r = decimal_string(rate as u64);
    let mut s = join5("Metric '", metric_to_str(k), "' is in state '", state_to_str(state), "' rate '");
    s.append(r.as_str());
    s.append("'");
    s
}

pub fn none_in_state(state: MetricState) -> (s: String)
    ensures
        s@ == none_in_state_text(state),
{
    join3("No metrics in state '", state_to_str(state), "'")
}

pub fn saved() -> (s: String)
    ensures
        s@ == saved_text(),
{
    String::from_str("Config successfully saved")
}

/// The line for a worker that was told to stop: it says that the worker
/// stopped where its task could be joined, and that the join failed where
/// it could not.
pub open spec fn halted_text(k: MetricType, joined: bool) -> Seq<char> {
    if joined {
        stopped_text(k)
    } else {
        join_failed_text()
    }
}

pub fn halted(k: MetricType, joined: bool) -> (s: String)
    ensures
        s@ == halted_text(k, joined),
{
    if joined {
        stopped(k)
    } else {
        join_failed()
    }
}

/// How saving the settings went. A failure holds its reason.
#[derive(Debug, PartialEq, Eq)]
pub enum StoreOutcome {
    Saved,
    CreateFailed(String),
    SerializeFailed(String),
    WriteFailed(String),
}

/// The line for an attempt to save the settings: that they were saved, or
/// what failed and why.
pub open spec fn store_text(outcome: StoreOutcome) -> Seq<char> {
    match outcome {
        StoreOutcome::Saved => saved_text(),
        StoreOutcome::CreateFailed(reason) => "Error: failed to create config file: "@ + reason@,
        StoreOutcome::SerializeFailed(reason) => "Error: failed to serialize config file: "@
            + reason@,
        StoreOutcome::WriteFailed(reason) => "Error: failed to write config file: "@ + reason@,
    }
}

pub fn store_report(outcome: &StoreOutcome) -> (s: String)
    ensures
        s@ == store_text(*outcome),
{
    match outcome {
        StoreOutcome::Saved => saved(),
        StoreOutcome::CreateFailed(reason) => {
            let mut s = String::from_str("Error: failed to create config file: ");
            s.append(reason.as_str());
            s
        },
        StoreOutcome::SerializeFailed(reason) => {
            let mut s = String::from_str("Error: failed to serialize config file: ");
            s.append(reason.as_str());
            s
        },
        StoreOutcome::WriteFailed(reason) => {
            let mut s = String::from_str("Error: failed to write config file: ");
            s.append(reason.as_str());
            s
        },
    }
}

} // verus!
