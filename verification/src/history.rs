//! The submission ledger: one marker per run that has been projected.
//!
//! A marker is a file whose presence alone says that the run was submitted;
//! what it holds, the trace identity, is there for people to read. Looking
//! for the marker and writing it are two separate moves, so two projections
//! of one run that overlap can both find it absent: the ledger spares work,
//! it does not promise that a run is submitted only once.

use vstd::prelude::*;
use vstd::string::*;
use crate::github::{Config, ConfigView};
use crate::poll::Outcome;
use crate::text::{decimal_digits, lemma_decimal_is_injective, push_decimal};

verus! {

/// The directory that holds the markers of one workflow:
/// `prefix/owner/repository/workflow`.
pub open spec fn record_directory_spec(prefix: Seq<char>, config: ConfigView) -> Seq<char> {
    prefix + "/"@ + config.owner + "/"@ + config.repository + "/"@ + config.workflow
}

/// The path of the marker of one run:
/// `prefix/owner/repository/workflow/run_id`.
pub open spec fn record_filename(prefix: Seq<char>, config: ConfigView, run_id: u64) -> Seq<char> {
    record_directory_spec(prefix, config) + "/"@ + decimal_digits(run_id as nat)
}

/// What a marker holds: the trace identity and a line feed.
pub open spec fn record_contents_spec(trace_id: Seq<char>) -> Seq<char> {
    trace_id + "\n"@
}

/// The directory that holds the markers of the configured workflow. It has
/// to exist before a marker is looked for.
pub fn record_directory(prefix: &str, config: &Config) -> (out: String)
    ensures
        out@ == record_directory_spec(prefix@, config@),
{
    let mut out = String::from_str(prefix);
    out.append("/");
    out.append(config.owner.as_str());
    out.append("/");
    out.append(config.repository.as_str());
    out.append("/");
    out.append(config.workflow.as_str());
    out
}

/// The path of the marker of the run `run_id` of the configured workflow.
pub fn form_record_filename(prefix: &str, config: &Config, run_id: u64) -> (out: String)
    ensures
        out@ == record_filename(prefix@, config@, run_id),
{
    let mut out = record_directory(prefix, config);
    out.append("/");
    push_decimal(&mut out, run_id);
    out
}

/// Reports what a look for a run's marker found, as the polling cycle
/// wants to hear it.
pub fn check_is_submitted(marker_present: bool) -> (out: Outcome)
    ensures
        marker_present ==> out == Outcome::Present,
        !marker_present ==> out == Outcome::Absent,
{
    if marker_present {
        Outcome::Present
    } else {
        Outcome::Absent
    }
}

/// What is written to mark a run as submitted: nothing where the marker is
/// there already, else the trace identity followed by a line feed.
pub fn mark_run_submitted(marker_present: bool, trace_id: &str) -> (out: Option<String>)
    ensures
        marker_present ==> out is None,
        !marker_present ==> out is Some && out.unwrap()@ == record_contents_spec(trace_id@),
{
    if marker_present {
        None
    } else {
        let mut contents = String::from_str(trace_id);
        contents.append("\n");
        Some(contents)
    }
}

/// Every run of a workflow has a marker of its own: two runs with the same
/// marker path are the same run.
pub proof fn lemma_one_marker_per_run(
    prefix: Seq<char>,
    config: ConfigView,
    first: u64,
    second: u64,
)
    requires
        record_filename(prefix, config, first) == record_filename(prefix, config, second),
    ensures
        first == second,
{
    let directory = record_directory_spec(prefix, config) + "/"@;
    let left = decimal_digits(first as nat);
    let right = decimal_digits(second as nat);
    assert((directory + left).skip(directory.len() as int) == left);
    assert((directory + right).skip(directory.len() as int) == right);
    lemma_decimal_is_injective(first as nat, second as nat);
}

} // verus!
