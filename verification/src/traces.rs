//! The span tree of a run: the run's span as root, one span per job under
//! it, one span per step under its job.

use vstd::prelude::*;
use vstd::string::*;
use crate::clock::TimeOffset;
use crate::excerpt::{error_excerpt, extract_error_excerpt};
use crate::github::{
    jobs_view, logs_view, Config, ConfigView, JobView, RunView, StepView, WorkflowJob, WorkflowRun,
    WorkflowStep,
};
use crate::identity::{derive_trace_identity, identity_hex, trace_identity};
use crate::span::{
    attributes_view, flag_attribute, has_key, integer_attribute, push_flag, push_integer,
    push_text, spans_view, text_attribute, Attribute, AttributeView, Parent, Span, SpanStatus,
    SpanView,
};
use crate::text::{as_signed, hex_digits, same_text, to_signed};

verus! {

/// One call to the telemetry backend. A descendant is named by its index
/// among the descendants of the tree.
#[derive(Clone, Copy, Debug, PartialEq, Eq, Structural)]
pub enum Emission {
    /// Open the root span.
    OpenRoot,
    /// Open the span of this descendant under its parent.
    Open(usize),
    /// Close the span of this descendant at its end time.
    Close(usize),
    /// Close the root span at its end time.
    CloseRoot,
}

/// The spans of one run under one trace identity: the root, and after it
/// every job's span followed by the spans of that job's steps; and the
/// order in which the backend is to hear of them.
#[derive(Clone, Debug)]
pub struct SpanTree {
    pub trace_id: u128,
    pub root: Span,
    pub descendants: Vec<Span>,
    pub emissions: Vec<Emission>,
}

/// What a [`SpanTree`] stands for: the identity, the sequence of all spans,
/// root first, and the calls to the backend in their order.
pub struct SpanTreeView {
    pub trace_id: nat,
    pub spans: Seq<SpanView>,
    pub emissions: Seq<Emission>,
}

impl View for SpanTree {
    type V = SpanTreeView;

    open spec fn view(&self) -> SpanTreeView {
        SpanTreeView {
            trace_id: self.trace_id as nat,
            spans: seq![self.root@] + spans_view(self.descendants@),
            emissions: self.emissions@,
        }
    }
}

/// The attributes of a run's span when it is opened.
pub open spec fn root_attributes(config: ConfigView, run: RunView) -> Seq<AttributeView> {
    let identified = Seq::<AttributeView>::empty().push(text_attribute("layer"@, "Run"@)).push(
        text_attribute("owner"@, config.owner),
    ).push(text_attribute("repository"@, config.repository)).push(
        text_attribute("workflow"@, config.workflow),
    ).push(integer_attribute("run_id"@, as_signed(run.run_id)));
    let concluded = match run.conclusion {
        Some(conclusion) => identified.push(text_attribute("conclusion"@, conclusion)),
        None => identified,
    };
    concluded.push(text_attribute("status"@, run.status)).push(
        text_attribute("html_url"@, run.html_url),
    ).push(integer_attribute("run_number"@, as_signed(run.run_number))).push(
        integer_attribute("run_attempt"@, as_signed(run.run_attempt)),
    )
}

/// The span of a run when it is opened: it starts at the run's creation,
/// moved by the run's offset, and has no end yet.
pub open spec fn root_span(config: ConfigView, run: RunView) -> SpanView {
    SpanView {
        name: run.name,
        start: run.created_at + run.delta,
        end: None,
        attributes: root_attributes(config, run),
        error: None,
        parent: None,
    }
}

/// A span closed at `finish` as a root is: with the end time, and with the
/// mark that it was the last span of its tree to close.
pub open spec fn closed_at(span: SpanView, finish: int) -> SpanView {
    SpanView {
        name: span.name,
        start: span.start,
        end: Some(finish),
        attributes: span.attributes.push(flag_attribute("debug.omega"@, true)),
        error: span.error,
        parent: span.parent,
    }
}

/// The attributes of a job's span.
pub open spec fn job_attributes(job: JobView) -> Seq<AttributeView> {
    Seq::<AttributeView>::empty().push(text_attribute("layer"@, "Job"@)).push(
        integer_attribute("job_id"@, as_signed(job.job_id)),
    ).push(text_attribute("conclusion"@, job.conclusion)).push(
        text_attribute("status"@, job.status),
    ).push(text_attribute("head_branch"@, job.head_branch)).push(
        text_attribute("html_url"@, job.html_url),
    )
}

/// The span of a job: a child of the root, from the job's start to its
/// completion, both moved by `offset`.
pub open spec fn job_span(job: JobView, offset: int) -> SpanView {
    SpanView {
        name: job.name,
        start: job.started_at + offset,
        end: Some(job.completed_at + offset),
        attributes: job_attributes(job),
        error: None,
        parent: Some(0),
    }
}

/// Whether a step failed: its conclusion is `failure`.
pub open spec fn step_failed(step: StepView) -> bool {
    step.conclusion == "failure"@
}

/// The attributes of a step's span. A failed step carries the excerpt of its
/// job's log, which may be empty.
pub open spec fn step_attributes(step: StepView, log: Seq<char>) -> Seq<AttributeView> {
    let described = Seq::<AttributeView>::empty().push(text_attribute("layer"@, "Step"@)).push(
        text_attribute("status"@, step.status),
    );
    let diagnosed = if step_failed(step) {
        described.push(text_attribute("exception.message"@, error_excerpt(log)))
    } else {
        described
    };
    diagnosed.push(text_attribute("conclusion"@, step.conclusion))
}

/// The span of a step: a child of the span at position `parent`, from the
/// step's start to its completion, both moved by `offset`, and marked as an
/// error exactly if the step failed.
pub open spec fn step_span(step: StepView, offset: int, parent: int, log: Seq<char>) -> SpanView {
    SpanView {
        name: step.name,
        start: step.started_at + offset,
        end: Some(step.completed_at + offset),
        attributes: step_attributes(step, log),
        error: if step_failed(step) {
            Some("Step failed"@)
        } else {
            None
        },
        parent: Some(parent),
    }
}

/// The spans of the first `n` of `steps`, in order.
pub open spec fn step_spans(
    steps: Seq<StepView>,
    offset: int,
    parent: int,
    log: Seq<char>,
    n: int,
) -> Seq<SpanView> {
    Seq::new(n as nat, |k: int| step_span(steps[k], offset, parent, log))
}

/// The spans of one job whose own span stands at position `at` of the tree:
/// the job's span, then the spans of its steps in order.
pub open spec fn job_block(job: JobView, offset: int, at: int, log: Seq<char>) -> Seq<
    SpanView,
> {
    seq![job_span(job, offset)] + step_spans(job.steps, offset, at, log, job.steps.len() as int)
}

/// The log of the job with index `i`: the text handed in for it, or the
/// empty text where none was.
pub open spec fn log_text(logs: Seq<Option<Seq<char>>>, i: int) -> Seq<char> {
    if 0 <= i < logs.len() && logs[i] is Some {
        logs[i].unwrap()
    } else {
        Seq::empty()
    }
}

/// The spans of the first `n` of `jobs`, in order, where the first of them
/// stands at position `base` of the tree.
pub open spec fn job_blocks(
    jobs: Seq<JobView>,
    offset: int,
    base: int,
    logs: Seq<Option<Seq<char>>>,
    n: int,
) -> Seq<SpanView>
    decreases n,
{
    if n <= 0 {
        Seq::empty()
    } else {
        let before = job_blocks(jobs, offset, base, logs, n - 1);
        before + job_block(jobs[n - 1], offset, base + before.len(), log_text(logs, n - 1))
    }
}

/// The whole projection of a run: its closed root, then its jobs.
pub open spec fn projection(
    config: ConfigView,
    run: RunView,
    jobs: Seq<JobView>,
    logs: Seq<Option<Seq<char>>>,
) -> Seq<SpanView> {
    seq![closed_at(root_span(config, run), run.updated_at + run.delta)] + job_blocks(
        jobs,
        run.delta,
        1,
        logs,
        jobs.len() as int,
    )
}

/// The number of steps of the first `n` of `jobs`.
pub open spec fn step_total(jobs: Seq<JobView>, n: int) -> int
    decreases n,
{
    if n <= 0 {
        0
    } else {
        step_total(jobs, n - 1) + jobs[n - 1].steps.len()
    }
}

/// The calls for `n` steps whose spans are the descendants from `first` on:
/// each step's span is opened and closed at once.
pub open spec fn step_emissions(first: int, n: int) -> Seq<Emission>
    decreases n,
{
    if n <= 0 {
        Seq::empty()
    } else {
        step_emissions(first, n - 1).push(Emission::Open((first + n - 1) as usize)).push(
            Emission::Close((first + n - 1) as usize),
        )
    }
}

/// The calls for a job with `steps` steps whose span is the descendant
/// `at`: the job's span is opened, then come its steps, then it is closed.
pub open spec fn job_emissions(at: int, steps: int) -> Seq<Emission> {
    (seq![Emission::Open(at as usize)] + step_emissions(at + 1, steps)).push(
        Emission::Close(at as usize),
    )
}

/// The calls for the first `n` of `jobs`, where the span of the first job
/// is the descendant `base`.
pub open spec fn jobs_emissions(jobs: Seq<JobView>, base: int, n: int) -> Seq<Emission>
    decreases n,
{
    if n <= 0 {
        Seq::empty()
    } else {
        jobs_emissions(jobs, base, n - 1) + job_emissions(
            base + (n - 1) + step_total(jobs, n - 1),
            jobs[n - 1].steps.len() as int,
        )
    }
}

/// The calls that project a run: the root is opened first and closed last,
/// and every job and step is opened and closed in between.
pub open spec fn projection_emissions(jobs: Seq<JobView>) -> Seq<Emission> {
    (seq![Emission::OpenRoot] + jobs_emissions(jobs, 0, jobs.len() as int)).push(
        Emission::CloseRoot,
    )
}

/// Whether a job has a failed step, so that its log is read.
pub open spec fn has_failed_step(job: JobView) -> bool {
    exists|k: int| 0 <= k < job.steps.len() && step_failed(#[trigger] job.steps[k])
}

fn no_attributes() -> (out: Vec<Attribute>)
    ensures
        attributes_view(out@) == Seq::<AttributeView>::empty(),
{
    let out: Vec<Attribute> = Vec::new();
    out
}

fn push_span(spans: &mut Vec<Span>, span: Span)
    ensures
        spans_view(final(spans)@) == spans_view(old(spans)@).push(span@),
        final(spans)@.len() == old(spans)@.len() + 1,
{
    spans.push(span);
}

/// Whether the step's conclusion is `failure`.
pub fn is_failed(step: &WorkflowStep) -> (failed: bool)
    ensures
        failed == step_failed(step@),
{
    same_text(step.conclusion.as_str(), "failure")
}

/// Whether the log of `job` is needed to project it: whether one of its
/// steps failed.
pub fn needs_log(job: &WorkflowJob) -> (needed: bool)
    ensures
        needed == has_failed_step(job@),
{
    let mut k: usize = 0;
    while k < job.steps.len()
        invariant
            k <= job.steps.len(),
            forall|j: int| 0 <= j < k ==> !step_failed(#[trigger] job.steps@[j]@),
        decreases job.steps.len() - k,
    {
        if is_failed(&job.steps[k]) {
            assert(step_failed(job@.steps[k as int]));
            return true;
        }
        k = k + 1;
    }
    false
}

/// Opens the tree of a run: derives the trace identity and builds the run's
/// span, which starts at the run's creation moved by the run's offset and
/// carries what identifies and describes the run. The span stays open until
/// [`finalize_root_span`] closes it.
pub fn establish_root_context(config: &Config, run: &WorkflowRun, process_id: u32) -> (out:
    SpanTree)
    ensures
        out@.trace_id == trace_identity(config@, run.run_id, process_id),
        out@.spans == seq![root_span(config@, run@)],
        out@.emissions == seq![Emission::OpenRoot],
{
    let trace_id = derive_trace_identity(config, run.run_id, process_id);
    let mut attributes = no_attributes();
    push_text(&mut attributes, "layer", "Run");
    push_text(&mut attributes, "owner", config.owner.as_str());
    push_text(&mut attributes, "repository", config.repository.as_str());
    push_text(&mut attributes, "workflow", config.workflow.as_str());
    push_integer(&mut attributes, "run_id", to_signed(run.run_id));
    match &run.conclusion {
        Some(conclusion) => {
            push_text(&mut attributes, "conclusion", conclusion.as_str());
        },
        None => {},
    }
    push_text(&mut attributes, "status", run.status.as_str());
    push_text(&mut attributes, "html_url", run.html_url.as_str());
    push_integer(&mut attributes, "run_number", to_signed(run.run_number));
    push_integer(&mut attributes, "run_attempt", to_signed(run.run_attempt));
    let root = Span {
        name: run.name.clone(),
        start: run.created_at.shifted(run.delta),
        end: None,
        attributes,
        status: SpanStatus::Unset,
        parent: Parent::Nothing,
    };
    let mut emissions: Vec<Emission> = Vec::new();
    emissions.push(Emission::OpenRoot);
    let out = SpanTree { trace_id, root, descendants: Vec::new(), emissions };
    out
}

fn build_job_span(job: &WorkflowJob, offset: TimeOffset) -> (out: Span)
    ensures
        out@ == job_span(job@, offset@),
{
    let mut attributes = no_attributes();
    push_text(&mut attributes, "layer", "Job");
    push_integer(&mut attributes, "job_id", to_signed(job.job_id));
    push_text(&mut attributes, "conclusion", job.conclusion.as_str());
    push_text(&mut attributes, "status", job.status.as_str());
    push_text(&mut attributes, "head_branch", job.head_branch.as_str());
    push_text(&mut attributes, "html_url", job.html_url.as_str());
    Span {
        name: job.name.clone(),
        start: job.started_at.shifted(offset),
        end: Some(job.completed_at.shifted(offset)),
        attributes,
        status: SpanStatus::Unset,
        parent: Parent::Root,
    }
}

fn build_step_span(step: &WorkflowStep, offset: TimeOffset, parent: usize, log: &str) -> (out:
    Span)
    ensures
        out@ == step_span(step@, offset@, parent + 1, log@),
{
    let failed = is_failed(step);
    let mut attributes = no_attributes();
    push_text(&mut attributes, "layer", "Step");
    push_text(&mut attributes, "status", step.status.as_str());
    let status = if failed {
        let message = extract_error_excerpt(log);
        push_text(&mut attributes, "exception.message", message.as_str());
        SpanStatus::Error(String::from_str("Step failed"))
    } else {
        SpanStatus::Unset
    };
    push_text(&mut attributes, "conclusion", step.conclusion.as_str());
    Span {
        name: step.name.clone(),
        start: step.started_at.shifted(offset),
        end: Some(step.completed_at.shifted(offset)),
        attributes,
        status,
        parent: Parent::Descendant(parent),
    }
}

fn log_of(logs: &Vec<Option<String>>, i: usize) -> (out: &str)
    ensures
        out@ == log_text(logs_view(logs@), i as int),
{
    if i < logs.len() {
        match &logs[i] {
            Some(text) => text.as_str(),
            None => {
                let none = "";
                proof {
                    reveal_strlit("");
                }
                none
            },
        }
    } else {
        let none = "";
        proof {
            reveal_strlit("");
        }
        none
    }
}

/// Adds the spans of `jobs` to the tree, job by job in the order given: the
/// job's span under the root, then one span per step under the job's span,
/// in the order of the steps, every time moved by the run's offset. A step
/// whose conclusion is `failure` is marked as an error and carries as
/// `exception.message` the excerpt of its job's log, which is `logs[i]` for
/// the job `jobs[i]`; a job for which no log is handed in is read as having
/// an empty log. Logs of jobs without a failed step are not looked at.
pub fn display_job_steps(
    tree: &mut SpanTree,
    run: &WorkflowRun,
    jobs: &Vec<WorkflowJob>,
    logs: &Vec<Option<String>>,
)
    ensures
        final(tree)@.trace_id == old(tree)@.trace_id,
        final(tree)@.spans == old(tree)@.spans + job_blocks(
            jobs_view(jobs@),
            run.delta@,
            old(tree)@.spans.len() as int,
            logs_view(logs@),
            jobs@.len() as int,
        ),
        final(tree)@.emissions == old(tree)@.emissions + jobs_emissions(
            jobs_view(jobs@),
            old(tree)@.spans.len() - 1,
            jobs@.len() as int,
        ),
{
    let ghost root = tree.root;
    let ghost before = spans_view(tree.descendants@);
    let ghost sent = tree.emissions@;
    let ghost first: int = before.len() as int;
    let ghost base: int = first + 1;
    let offset = run.delta;
    let mut i: usize = 0;
    while i < jobs.len()
        invariant
            i <= jobs.len(),
            offset == run.delta,
            tree.root == root,
            tree.trace_id == old(tree).trace_id,
            first == before.len(),
            base == first + 1,
            tree.descendants@.len() == first + i + step_total(jobs_view(jobs@), i as int),
            spans_view(tree.descendants@) == before + job_blocks(
                jobs_view(jobs@),
                offset@,
                base,
                logs_view(logs@),
                i as int,
            ),
            tree.emissions@ == sent + jobs_emissions(jobs_view(jobs@), first, i as int),
        decreases jobs.len() - i,
    {
        let job = &jobs[i];
        let log = log_of(logs, i);
        let ghost head = spans_view(tree.descendants@);
        let ghost told = tree.emissions@;
        let position = tree.descendants.len();
        proof {
            lemma_block_count(jobs_view(jobs@), offset@, base, logs_view(logs@), i as int);
        }
        let span = build_job_span(job, offset);
        push_span(&mut tree.descendants, span);
        tree.emissions.push(Emission::Open(position));
        let mut k: usize = 0;
        while k < job.steps.len()
            invariant
                k <= job.steps.len(),
                tree.root == root,
                tree.trace_id == old(tree).trace_id,
                log@ == log_text(logs_view(logs@), i as int),
                tree.descendants@.len() == position + 1 + k,
                spans_view(tree.descendants@) == head.push(job_span(job@, offset@)) + step_spans(
                    job@.steps,
                    offset@,
                    position + 1,
                    log@,
                    k as int,
                ),
                tree.emissions@ == told.push(Emission::Open(position)) + step_emissions(
                    position + 1,
                    k as int,
                ),
            decreases job.steps.len() - k,
        {
            let at = tree.descendants.len();
            let span = build_step_span(&job.steps[k], offset, position, log);
            push_span(&mut tree.descendants, span);
            tree.emissions.push(Emission::Open(at));
            tree.emissions.push(Emission::Close(at));
            k = k + 1;
        }
        tree.emissions.push(Emission::Close(position));
        i = i + 1;
    }
}

/// Closes the root span at the run's last update, moved by the run's
/// offset, marks it as the span that closed last, and returns the trace
/// identity in lower-case hexadecimal without leading zeros. The other spans
/// stay as they are. The call that closes the root comes after all that the
/// tree holds so far.
pub fn finalize_root_span(tree: &mut SpanTree, run: &WorkflowRun) -> (out: String)
    ensures
        out@ == hex_digits(old(tree)@.trace_id),
        final(tree)@.trace_id == old(tree)@.trace_id,
        final(tree)@.spans == old(tree)@.spans.update(
            0,
            closed_at(old(tree)@.spans[0], run.updated_at@ + run.delta@),
        ),
        final(tree)@.emissions == old(tree)@.emissions.push(Emission::CloseRoot),
{
    let finish = run.updated_at.shifted(run.delta);
    tree.root.end = Some(finish);
    push_flag(&mut tree.root.attributes, "debug.omega", true);
    tree.emissions.push(Emission::CloseRoot);
    identity_hex(tree.trace_id)
}

/// Projects a run whose jobs and logs have been retrieved: opens the root,
/// adds every job and step, and closes the root last. Returns the tree and
/// the trace identity in lower-case hexadecimal without leading zeros.
pub fn project(
    config: &Config,
    run: &WorkflowRun,
    jobs: &Vec<WorkflowJob>,
    logs: &Vec<Option<String>>,
    process_id: u32,
) -> (out: (SpanTree, String))
    ensures
        out.0@.trace_id == trace_identity(config@, run.run_id, process_id),
        out.0@.spans == projection(config@, run@, jobs_view(jobs@), logs_view(logs@)),
        out.0@.emissions == projection_emissions(jobs_view(jobs@)),
        out.1@ == hex_digits(trace_identity(config@, run.run_id, process_id)),
{
    let mut tree = establish_root_context(config, run, process_id);
    display_job_steps(&mut tree, run, jobs, logs);
    let identity = finalize_root_span(&mut tree, run);
    (tree, identity)
}

/// Where the span of the job with index `i` stands in the projection of a
/// run: after the root, the earlier jobs and their steps.
pub open spec fn job_position(jobs: Seq<JobView>, i: int) -> int {
    1 + i + step_total(jobs, i)
}

/// Where the span of step `k` of the job with index `i` stands in the
/// projection of a run.
pub open spec fn step_position(jobs: Seq<JobView>, i: int, k: int) -> int {
    job_position(jobs, i) + 1 + k
}

/// The first `n` jobs give one span each and one span for each of their
/// steps.
pub proof fn lemma_block_count(
    jobs: Seq<JobView>,
    offset: int,
    base: int,
    logs: Seq<Option<Seq<char>>>,
    n: int,
)
    requires
        0 <= n <= jobs.len(),
    ensures
        job_blocks(jobs, offset, base, logs, n).len() == n + step_total(jobs, n),
    decreases n,
{
    if n > 0 {
        lemma_block_count(jobs, offset, base, logs, n - 1);
    }
}

proof fn lemma_blocks_extend(
    jobs: Seq<JobView>,
    offset: int,
    base: int,
    logs: Seq<Option<Seq<char>>>,
    m: int,
    n: int,
)
    requires
        0 <= m <= n <= jobs.len(),
    ensures
        job_blocks(jobs, offset, base, logs, m).len() <= job_blocks(
            jobs,
            offset,
            base,
            logs,
            n,
        ).len(),
        forall|at: int|
            0 <= at < job_blocks(jobs, offset, base, logs, m).len() ==> job_blocks(
                jobs,
                offset,
                base,
                logs,
                n,
            )[at] == job_blocks(jobs, offset, base, logs, m)[at],
    decreases n - m,
{
    if m < n {
        lemma_blocks_extend(jobs, offset, base, logs, m, n - 1);
    }
}

/// Among the spans of the first `n` jobs, the span of job `i` stands after
/// those of the earlier jobs and their steps, and the spans of its steps
/// follow it in order, each with the job's span as its parent.
pub proof fn lemma_block_layout(
    jobs: Seq<JobView>,
    offset: int,
    base: int,
    logs: Seq<Option<Seq<char>>>,
    n: int,
    i: int,
)
    requires
        0 <= i < n <= jobs.len(),
    ensures
        i + step_total(jobs, i) + jobs[i].steps.len() < job_blocks(
            jobs,
            offset,
            base,
            logs,
            n,
        ).len(),
        job_blocks(jobs, offset, base, logs, n)[i + step_total(jobs, i)] == job_span(
            jobs[i],
            offset,
        ),
        forall|k: int|
            0 <= k < jobs[i].steps.len() ==> #[trigger] job_blocks(jobs, offset, base, logs, n)[i
                + step_total(jobs, i) + 1 + k] == step_span(
                jobs[i].steps[k],
                offset,
                base + i + step_total(jobs, i),
                log_text(logs, i),
            ),
{
    lemma_block_count(jobs, offset, base, logs, i);
    lemma_block_count(jobs, offset, base, logs, i + 1);
    lemma_blocks_extend(jobs, offset, base, logs, i + 1, n);
}

/// The projection of a run with J jobs, of which job i has S_i steps, has
/// 1 + J + S_1 + ... + S_J spans. The first is the root and has no parent;
/// every job's span has the root as its parent; every step's span has the
/// span of its job as its parent.
pub proof fn lemma_projection_shape(
    config: ConfigView,
    run: RunView,
    jobs: Seq<JobView>,
    logs: Seq<Option<Seq<char>>>,
)
    ensures
        projection(config, run, jobs, logs).len() == 1 + jobs.len() + step_total(
            jobs,
            jobs.len() as int,
        ),
        projection(config, run, jobs, logs)[0] == closed_at(
            root_span(config, run),
            run.updated_at + run.delta,
        ),
        projection(config, run, jobs, logs)[0].parent is None,
        forall|i: int|
            0 <= i < jobs.len() ==> {
                &&& 0 < job_position(jobs, i) < projection(config, run, jobs, logs).len()
                &&& #[trigger] projection(config, run, jobs, logs)[job_position(jobs, i)]
                    == job_span(jobs[i], run.delta)
                &&& projection(config, run, jobs, logs)[job_position(jobs, i)].parent == Some(
                    0int,
                )
            },
        forall|i: int, k: int|
            0 <= i < jobs.len() && 0 <= k < jobs[i].steps.len() ==> {
                &&& 0 < step_position(jobs, i, k) < projection(config, run, jobs, logs).len()
                &&& #[trigger] projection(config, run, jobs, logs)[step_position(jobs, i, k)]
                    == step_span(
                    jobs[i].steps[k],
                    run.delta,
                    job_position(jobs, i),
                    log_text(logs, i),
                )
                &&& projection(config, run, jobs, logs)[step_position(jobs, i, k)].parent == Some(
                    job_position(jobs, i),
                )
            },
{
    let n = jobs.len() as int;
    let blocks = job_blocks(jobs, run.delta, 1, logs, n);
    let spans = projection(config, run, jobs, logs);
    lemma_block_count(jobs, run.delta, 1, logs, n);
    assert forall|i: int| 0 <= i < jobs.len() implies {
        &&& 0 < job_position(jobs, i) < spans.len()
        &&& #[trigger] spans[job_position(jobs, i)] == job_span(jobs[i], run.delta)
        &&& spans[job_position(jobs, i)].parent == Some(0int)
    } by {
        lemma_block_layout(jobs, run.delta, 1, logs, n, i);
        lemma_step_total_grows(jobs, i);
    }
    assert forall|i: int, k: int|
        0 <= i < jobs.len() && 0 <= k < jobs[i].steps.len() implies {
        &&& 0 < step_position(jobs, i, k) < spans.len()
        &&& #[trigger] spans[step_position(jobs, i, k)] == step_span(
            jobs[i].steps[k],
            run.delta,
            job_position(jobs, i),
            log_text(logs, i),
        )
        &&& spans[step_position(jobs, i, k)].parent == Some(job_position(jobs, i))
    } by {
        lemma_block_layout(jobs, run.delta, 1, logs, n, i);
        lemma_step_total_grows(jobs, i);
        assert(spans[step_position(jobs, i, k)] == blocks[i + step_total(jobs, i) + 1 + k]);
    }
}

proof fn lemma_step_total_grows(jobs: Seq<JobView>, n: int)
    ensures
        0 <= step_total(jobs, n),
    decreases n,
{
    if n > 0 {
        lemma_step_total_grows(jobs, n - 1);
    }
}

/// The span of a failed step reports an error and carries the key
/// `exception.message`, whose value is the excerpt of the job's log; the
/// span of any other step reports no error.
pub proof fn lemma_failure_marks(step: StepView, offset: int, parent: int, log: Seq<char>)
    ensures
        step_failed(step) ==> step_span(step, offset, parent, log).error is Some,
        step_failed(step) ==> has_key(
            step_span(step, offset, parent, log).attributes,
            "exception.message"@,
        ),
        step_failed(step) ==> step_span(step, offset, parent, log).attributes[2]
            == text_attribute("exception.message"@, error_excerpt(log)),
        !step_failed(step) ==> step_span(step, offset, parent, log).error is None,
{
    if step_failed(step) {
        assert(step_span(step, offset, parent, log).attributes[2].key == "exception.message"@);
    }
}

/// Among the spans of the first `n` jobs, one that reports an error is the
/// span of a failed step.
pub proof fn lemma_errors_are_failed_steps(
    jobs: Seq<JobView>,
    offset: int,
    base: int,
    logs: Seq<Option<Seq<char>>>,
    n: int,
    at: int,
)
    requires
        0 <= n <= jobs.len(),
        0 <= at < job_blocks(jobs, offset, base, logs, n).len(),
        job_blocks(jobs, offset, base, logs, n)[at].error is Some,
    ensures
        exists|i: int, k: int|
            0 <= i < n && 0 <= k < jobs[i].steps.len() && at == i + step_total(jobs, i) + 1 + k
                && step_failed(#[trigger] jobs[i].steps[k]),
    decreases n,
{
    let before = job_blocks(jobs, offset, base, logs, n - 1);
    lemma_block_count(jobs, offset, base, logs, n - 1);
    if at < before.len() {
        lemma_errors_are_failed_steps(jobs, offset, base, logs, n - 1, at);
    } else {
        let k = at - before.len() - 1;
        assert(step_failed(jobs[n - 1].steps[k]));
    }
}

/// Every span of a projection is closed: none is left open.
pub proof fn lemma_every_span_is_closed(
    config: ConfigView,
    run: RunView,
    jobs: Seq<JobView>,
    logs: Seq<Option<Seq<char>>>,
    at: int,
)
    requires
        0 <= at < projection(config, run, jobs, logs).len(),
    ensures
        projection(config, run, jobs, logs)[at].end is Some,
{
    if at > 0 {
        lemma_blocks_are_closed(jobs, run.delta, 1, logs, jobs.len() as int, at - 1);
    }
}

proof fn lemma_blocks_are_closed(
    jobs: Seq<JobView>,
    offset: int,
    base: int,
    logs: Seq<Option<Seq<char>>>,
    n: int,
    at: int,
)
    requires
        0 <= n <= jobs.len(),
        0 <= at < job_blocks(jobs, offset, base, logs, n).len(),
    ensures
        job_blocks(jobs, offset, base, logs, n)[at].end is Some,
    decreases n,
{
    if at < job_blocks(jobs, offset, base, logs, n - 1).len() {
        lemma_blocks_are_closed(jobs, offset, base, logs, n - 1, at);
    }
}

/// The span of a job and the span of a step last as long as the job and the
/// step did, whatever the offset.
pub proof fn lemma_spans_keep_durations(
    job: JobView,
    step: StepView,
    offset: int,
    parent: int,
    log: Seq<char>,
)
    ensures
        job_span(job, offset).end.unwrap() - job_span(job, offset).start == job.completed_at
            - job.started_at,
        step_span(step, offset, parent, log).end.unwrap() - step_span(
            step,
            offset,
            parent,
            log,
        ).start == step.completed_at - step.started_at,
{
}

/// The calls for `n` steps come in pairs: the span of step `k` is opened by
/// call `2k` and closed by the call directly after it.
pub proof fn lemma_step_emissions(first: int, n: int)
    requires
        0 <= n,
    ensures
        step_emissions(first, n).len() == 2 * n,
        forall|k: int|
            0 <= k < n ==> #[trigger] step_emissions(first, n)[2 * k] == Emission::Open(
                (first + k) as usize,
            ) && step_emissions(first, n)[2 * k + 1] == Emission::Close((first + k) as usize),
    decreases n,
{
    if n > 0 {
        lemma_step_emissions(first, n - 1);
    }
}

/// The first `n` jobs take two calls for each of their spans.
pub proof fn lemma_emission_count(jobs: Seq<JobView>, base: int, n: int)
    requires
        0 <= n <= jobs.len(),
    ensures
        jobs_emissions(jobs, base, n).len() == 2 * (n + step_total(jobs, n)),
    decreases n,
{
    if n > 0 {
        lemma_emission_count(jobs, base, n - 1);
        lemma_step_emissions(
            base + (n - 1) + step_total(jobs, n - 1) + 1,
            jobs[n - 1].steps.len() as int,
        );
    }
}

proof fn lemma_emissions_extend(jobs: Seq<JobView>, base: int, m: int, n: int)
    requires
        0 <= m <= n <= jobs.len(),
    ensures
        jobs_emissions(jobs, base, m).len() <= jobs_emissions(jobs, base, n).len(),
        forall|at: int|
            0 <= at < jobs_emissions(jobs, base, m).len() ==> jobs_emissions(jobs, base, n)[at]
                == jobs_emissions(jobs, base, m)[at],
    decreases n - m,
{
    if m < n {
        lemma_emissions_extend(jobs, base, m, n - 1);
    }
}

/// The order of the calls for the first `n` jobs. The span of job `i` is
/// opened after all calls for the earlier jobs; the spans of its steps are
/// opened and closed one after the other, in their order; and only then the
/// job's span is closed.
pub proof fn lemma_emission_order(jobs: Seq<JobView>, base: int, n: int, i: int)
    requires
        0 <= i < n <= jobs.len(),
    ensures
        ({
            let calls = jobs_emissions(jobs, base, n);
            let opened = 2 * (i + step_total(jobs, i));
            let at = base + i + step_total(jobs, i);
            let steps = jobs[i].steps.len() as int;
            &&& opened + 2 * steps + 1 < calls.len()
            &&& calls[opened] == Emission::Open(at as usize)
            &&& calls[opened + 2 * steps + 1] == Emission::Close(at as usize)
            &&& forall|k: int|
                0 <= k < steps ==> #[trigger] calls[opened + 1 + 2 * k] == Emission::Open(
                    (at + 1 + k) as usize,
                ) && calls[opened + 2 + 2 * k] == Emission::Close((at + 1 + k) as usize)
        }),
{
    let at = base + i + step_total(jobs, i);
    let steps = jobs[i].steps.len() as int;
    lemma_emission_count(jobs, base, i);
    lemma_emission_count(jobs, base, i + 1);
    lemma_emissions_extend(jobs, base, i + 1, n);
    lemma_step_emissions(at + 1, steps);
}

/// A projection takes two calls for each of its spans; the first opens the
/// root and the last closes it, so that every other span is opened and
/// closed while the root is open.
pub proof fn lemma_root_closes_last(jobs: Seq<JobView>)
    ensures
        projection_emissions(jobs).len() == 2 * (1 + jobs.len() + step_total(
            jobs,
            jobs.len() as int,
        )),
        projection_emissions(jobs).first() == Emission::OpenRoot,
        projection_emissions(jobs).last() == Emission::CloseRoot,
        forall|at: int|
            0 < at < projection_emissions(jobs).len() - 1 ==> #[trigger] projection_emissions(
                jobs,
            )[at] == jobs_emissions(jobs, 0, jobs.len() as int)[at - 1],
{
    lemma_emission_count(jobs, 0, jobs.len() as int);
}

} // verus!
