//! The CI provider's objects (run, job, step), the addresses at which its
//! API serves them, and the failures of a retrieval.

use vstd::prelude::*;
use vstd::string::*;
use crate::clock::{time_offset, offset_for, TimeOffset, Timestamp};
use crate::text::{chars_of, decimal_digits, find_char, find_from, push_decimal, string_of};

verus! {

/// Which workflow of which repository is being projected, and in which mode.
#[derive(Clone, Debug)]
pub struct Config {
    pub owner: String,
    pub repository: String,
    pub workflow: String,
    /// Development mode: timestamps are re-based near the program's start and
    /// the trace identity is made unique to the process.
    pub devel: bool,
}

/// What a [`Config`] stands for.
pub struct ConfigView {
    pub owner: Seq<char>,
    pub repository: Seq<char>,
    pub workflow: Seq<char>,
    pub devel: bool,
}

impl View for Config {
    type V = ConfigView;

    open spec fn view(&self) -> ConfigView {
        ConfigView {
            owner: self.owner@,
            repository: self.repository@,
            workflow: self.workflow@,
            devel: self.devel,
        }
    }
}

/// Who caused a run.
#[derive(Clone, Debug)]
pub struct WorkflowActor {
    pub login: String,
}

/// One execution of a workflow.
#[derive(Clone, Debug)]
pub struct WorkflowRun {
    pub actor: WorkflowActor,
    pub run_id: u64,
    pub run_number: u64,
    pub run_attempt: u64,
    pub head_branch: String,
    pub name: String,
    pub display_title: String,
    /// What caused the workflow to run.
    pub event: String,
    pub status: String,
    /// Absent while the run has not completed.
    pub conclusion: Option<String>,
    pub created_at: Timestamp,
    pub updated_at: Timestamp,
    pub html_url: String,
    /// The full path and version of the workflow's definition.
    pub path: String,
    /// The offset added to every timestamp of this run.
    pub delta: TimeOffset,
}

/// One unit of work within a run, with its steps in execution order.
#[derive(Clone, Debug)]
pub struct WorkflowJob {
    pub job_id: u64,
    pub name: String,
    pub head_branch: String,
    pub status: String,
    pub conclusion: String,
    pub started_at: Timestamp,
    pub completed_at: Timestamp,
    pub steps: Vec<WorkflowStep>,
    pub html_url: String,
}

/// One ordered action within a job.
#[derive(Clone, Debug)]
pub struct WorkflowStep {
    pub name: String,
    pub status: String,
    pub conclusion: String,
    pub started_at: Timestamp,
    pub completed_at: Timestamp,
}

/// What a [`WorkflowRun`] stands for. Times are nanoseconds since the Unix
/// epoch, and the offset is in nanoseconds.
pub struct RunView {
    pub actor: Seq<char>,
    pub run_id: u64,
    pub run_number: u64,
    pub run_attempt: u64,
    pub head_branch: Seq<char>,
    pub name: Seq<char>,
    pub display_title: Seq<char>,
    pub event: Seq<char>,
    pub status: Seq<char>,
    pub conclusion: Option<Seq<char>>,
    pub created_at: int,
    pub updated_at: int,
    pub html_url: Seq<char>,
    pub path: Seq<char>,
    pub delta: int,
}

/// What a [`WorkflowStep`] stands for.
pub struct StepView {
    pub name: Seq<char>,
    pub status: Seq<char>,
    pub conclusion: Seq<char>,
    pub started_at: int,
    pub completed_at: int,
}

/// What a [`WorkflowJob`] stands for.
pub struct JobView {
    pub job_id: u64,
    pub name: Seq<char>,
    pub head_branch: Seq<char>,
    pub status: Seq<char>,
    pub conclusion: Seq<char>,
    pub started_at: int,
    pub completed_at: int,
    pub steps: Seq<StepView>,
    pub html_url: Seq<char>,
}

impl View for WorkflowRun {
    type V = RunView;

    open spec fn view(&self) -> RunView {
        RunView {
            actor: self.actor.login@,
            run_id: self.run_id,
            run_number: self.run_number,
            run_attempt: self.run_attempt,
            head_branch: self.head_branch@,
            name: self.name@,
            display_title: self.display_title@,
            event: self.event@,
            status: self.status@,
            conclusion: match self.conclusion {
                Some(conclusion) => Some(conclusion@),
                None => None,
            },
            created_at: self.created_at@,
            updated_at: self.updated_at@,
            html_url: self.html_url@,
            path: self.path@,
            delta: self.delta@,
        }
    }
}

impl View for WorkflowStep {
    type V = StepView;

    open spec fn view(&self) -> StepView {
        StepView {
            name: self.name@,
            status: self.status@,
            conclusion: self.conclusion@,
            started_at: self.started_at@,
            completed_at: self.completed_at@,
        }
    }
}

/// What a sequence of steps stands for.
pub open spec fn steps_view(steps: Seq<WorkflowStep>) -> Seq<StepView> {
    Seq::new(steps.len(), |k: int| steps[k]@)
}

impl View for WorkflowJob {
    type V = JobView;

    open spec fn view(&self) -> JobView {
        JobView {
            job_id: self.job_id,
            name: self.name@,
            head_branch: self.head_branch@,
            status: self.status@,
            conclusion: self.conclusion@,
            started_at: self.started_at@,
            completed_at: self.completed_at@,
            steps: steps_view(self.steps@),
            html_url: self.html_url@,
        }
    }
}

/// What a sequence of jobs stands for.
pub open spec fn jobs_view(jobs: Seq<WorkflowJob>) -> Seq<JobView> {
    Seq::new(jobs.len(), |i: int| jobs[i]@)
}

/// What a sequence of logs stands for: for each job the text of its log, if
/// one was retrieved.
pub open spec fn logs_view(logs: Seq<Option<String>>) -> Seq<Option<Seq<char>>> {
    Seq::new(
        logs.len(),
        |i: int|
            match logs[i] {
                Some(text) => Some(text@),
                None => None,
            },
    )
}

/// Why a retrieval from the provider's API failed.
#[derive(Clone, Debug)]
pub enum GitHubProblem {
    /// The request did not get through; the text says why.
    RemoteFailure(String),
    /// The API answered with a status outside 200 to 299.
    ApiError(u16),
    /// The answer did not have the expected shape; the text says why.
    DecodeFailure(String),
}

impl GitHubProblem {
    /// The text that [`GitHubProblem::message`] returns.
    pub open spec fn message_spec(self) -> Seq<char> {
        match self {
            GitHubProblem::RemoteFailure(detail) => "Remote failure: "@ + detail@,
            GitHubProblem::ApiError(status) => "Error response from GitHub API: "@
                + decimal_digits(status as nat) + " "@,
            GitHubProblem::DecodeFailure(detail) => "Decode failure: "@ + detail@,
        }
    }

    /// A line of text that describes the failure.
    pub fn message(&self) -> (out: String)
        ensures
            out@ == self.message_spec(),
    {
        match self {
            GitHubProblem::RemoteFailure(detail) => {
                let mut out = String::from_str("Remote failure: ");
                out.append(detail.as_str());
                out
            },
            GitHubProblem::ApiError(status) => {
                let mut out = String::from_str("Error response from GitHub API: ");
                push_decimal(&mut out, *status as u64);
                out.append(" ");
                out
            },
            GitHubProblem::DecodeFailure(detail) => {
                let mut out = String::from_str("Decode failure: ");
                out.append(detail.as_str());
                out
            },
        }
    }
}

/// Whether an HTTP status reports success: 200 to 299.
pub open spec fn is_success(status: u16) -> bool {
    200 <= status <= 299
}

/// Accepts the statuses 200 to 299, and turns any other into
/// [`GitHubProblem::ApiError`] with that status.
pub fn check_status(status: u16) -> (out: Result<(), GitHubProblem>)
    ensures
        is_success(status) ==> out is Ok,
        !is_success(status) ==> out == Err::<(), GitHubProblem>(GitHubProblem::ApiError(status)),
{
    if 200 <= status && status <= 299 {
        Ok(())
    } else {
        Err(GitHubProblem::ApiError(status))
    }
}

/// The address that lists the most recent `count` runs of a workflow.
pub open spec fn workflow_runs_url_spec(config: ConfigView, count: u32) -> Seq<char> {
    "https://api.github.com/repos/"@ + config.owner + "/"@ + config.repository
        + "/actions/workflows/"@ + config.workflow + "/runs?per_page="@ + decimal_digits(
        count as nat,
    ) + "&page=1"@
}

/// The address that lists the jobs of a run.
pub open spec fn run_jobs_url_spec(config: ConfigView, run_id: u64) -> Seq<char> {
    "https://api.github.com/repos/"@ + config.owner + "/"@ + config.repository
        + "/actions/runs/"@ + decimal_digits(run_id as nat) + "/jobs"@
}

/// The address that serves the raw log of a job.
pub open spec fn job_log_url_spec(config: ConfigView, job_id: u64) -> Seq<char> {
    "https://api.github.com/repos/"@ + config.owner + "/"@ + config.repository
        + "/actions/jobs/"@ + decimal_digits(job_id as nat) + "/logs"@
}

fn repository_url(config: &Config) -> (out: String)
    ensures
        out@ == "https://api.github.com/repos/"@ + config.owner@ + "/"@ + config.repository@,
{
    let mut out = String::from_str("https://api.github.com/repos/");
    out.append(config.owner.as_str());
    out.append("/");
    out.append(config.repository.as_str());
    out
}

/// The address that lists the most recent `count` runs of the configured
/// workflow, newest first.
pub fn workflow_runs_url(config: &Config, count: u32) -> (out: String)
    ensures
        out@ == workflow_runs_url_spec(config@, count),
{
    let mut out = repository_url(config);
    out.append("/actions/workflows/");
    out.append(config.workflow.as_str());
    out.append("/runs?per_page=");
    push_decimal(&mut out, count as u64);
    out.append("&page=1");
    out
}

/// The address that lists the jobs of the run `run_id`, each with its steps.
pub fn run_jobs_url(config: &Config, run_id: u64) -> (out: String)
    ensures
        out@ == run_jobs_url_spec(config@, run_id),
{
    let mut out = repository_url(config);
    out.append("/actions/runs/");
    push_decimal(&mut out, run_id);
    out.append("/jobs");
    out
}

/// The address that serves the raw log of the job `job_id`.
pub fn job_log_url(config: &Config, job_id: u64) -> (out: String)
    ensures
        out@ == job_log_url_spec(config@, job_id),
{
    let mut out = repository_url(config);
    out.append("/actions/jobs/");
    push_decimal(&mut out, job_id);
    out.append("/logs");
    out
}

impl WorkflowRun {
    /// Gives the run the offset that belongs to it: in development mode the
    /// one that moves its creation to ten minutes before `program_start`,
    /// otherwise none.
    pub fn normalized(self, devel: bool, program_start: Timestamp) -> (out: WorkflowRun)
        ensures
            out@ == (RunView {
                delta: offset_for(devel, program_start@, self.created_at@),
                ..self@
            }),
    {
        let delta = time_offset(devel, program_start, self.created_at);
        WorkflowRun {
            actor: self.actor,
            run_id: self.run_id,
            run_number: self.run_number,
            run_attempt: self.run_attempt,
            head_branch: self.head_branch,
            name: self.name,
            display_title: self.display_title,
            event: self.event,
            status: self.status,
            conclusion: self.conclusion,
            created_at: self.created_at,
            updated_at: self.updated_at,
            html_url: self.html_url,
            path: self.path,
            delta,
        }
    }
}

/// The value of the `Authorization` header for a token: `Bearer`, a space,
/// and the token.
pub fn authorization_header(token: &str) -> (out: String)
    ensures
        out@ == "Bearer "@ + token@,
{
    let mut out = String::from_str("Bearer ");
    out.append(token);
    out
}

/// The value of the `User-Agent` header for a version of the program.
pub fn user_agent(version: &str) -> (out: String)
    ensures
        out@ == "action-hero/"@ + version@,
{
    let mut out = String::from_str("action-hero/");
    out.append(version);
    out
}

/// The owner and the repository that `owner/repository` names: what stands
/// before its first slash, and what stands after it.
pub open spec fn split_repository_spec(name: Seq<char>) -> Option<(Seq<char>, Seq<char>)> {
    let at = find_from(name, '/', 0);
    if at < name.len() {
        Some((name.take(at), name.skip(at + 1)))
    } else {
        None
    }
}

/// Splits `owner/repository` at its first slash. A name without a slash
/// names no repository.
pub fn split_repository(name: &str) -> (out: Option<(String, String)>)
    ensures
        out is Some <==> split_repository_spec(name@) is Some,
        out is Some ==> out.unwrap().0@ == split_repository_spec(name@).unwrap().0
            && out.unwrap().1@ == split_repository_spec(name@).unwrap().1,
{
    let chars = chars_of(name);
    let at = find_char(&chars, '/', 0, chars.len());
    assert(chars@.take(chars.len() as int) == chars@);
    if at < chars.len() {
        let owner = string_of(&chars, 0, at);
        let repository = string_of(&chars, at + 1, chars.len());
        Some((owner, repository))
    } else {
        None
    }
}

} // verus!
