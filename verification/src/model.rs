//! The data the core works on: pipeline and job snapshots, the resolved
//! configuration record, and the error type for failed fetches, together with
//! their mathematical models.

use vstd::prelude::*;

verus! {

/// One pipeline as reported by the CI server: identifier, overall status,
/// branch reference and creation timestamp.  An immutable snapshot.
#[derive(Debug)]
pub struct Pipeline {
    pub id: u64,
    pub status: String,
    pub ref_name: String,
    pub created_at: String,
}

/// The model of a [`Pipeline`]: each text field abstracted to its character
/// sequence.
pub struct PipelineView {
    pub id: u64,
    pub status: Seq<char>,
    pub ref_name: Seq<char>,
    pub created_at: Seq<char>,
}

impl View for Pipeline {
    type V = PipelineView;

    open spec fn view(&self) -> PipelineView {
        PipelineView {
            id: self.id,
            status: self.status@,
            ref_name: self.ref_name@,
            created_at: self.created_at@,
        }
    }
}

impl DeepView for Pipeline {
    type V = PipelineView;

    open spec fn deep_view(&self) -> PipelineView {
        self.view()
    }
}

impl Pipeline {
    /// An explicit copy; the model of the copy equals the model of the
    /// original.
    pub fn duplicate(&self) -> (r: Pipeline)
        ensures
            r@ == self@,
    {
        Pipeline {
            id: self.id,
            status: self.status.clone(),
            ref_name: self.ref_name.clone(),
            created_at: self.created_at.clone(),
        }
    }
}

/// One job of a pipeline: identifier, name, the stage it belongs to, status,
/// an optional start timestamp and the creation timestamp that serves as the
/// start-time fallback.
#[derive(Debug)]
pub struct Job {
    pub id: u64,
    pub name: String,
    pub stage: String,
    pub status: String,
    pub started_at: Option<String>,
    pub created_at: String,
}

/// The model of a [`Job`].
pub struct JobView {
    pub id: u64,
    pub name: Seq<char>,
    pub stage: Seq<char>,
    pub status: Seq<char>,
    pub started_at: Option<Seq<char>>,
    pub created_at: Seq<char>,
}

impl View for Job {
    type V = JobView;

    open spec fn view(&self) -> JobView {
        JobView {
            id: self.id,
            name: self.name@,
            stage: self.stage@,
            status: self.status@,
            started_at: self.started_at.deep_view(),
            created_at: self.created_at@,
        }
    }
}

impl DeepView for Job {
    type V = JobView;

    open spec fn deep_view(&self) -> JobView {
        self.view()
    }
}

/// The configuration record the core runs under, resolved once by the caller
/// before any fetch: mode, optional blocking stage, blocking job names, the
/// pre- and post-block windows in seconds, and the poll interval in seconds.
#[derive(Debug)]
pub struct Config {
    pub simple_mode: bool,
    pub blocking_stage: Option<String>,
    pub blocking_jobs: Vec<String>,
    pub pre_block_duration: u64,
    pub post_block_duration: u64,
    pub check_interval: u64,
}

/// The model of a [`Config`].
pub struct ConfigView {
    pub simple_mode: bool,
    pub blocking_stage: Option<Seq<char>>,
    pub blocking_jobs: Seq<Seq<char>>,
    pub pre_block_duration: u64,
    pub post_block_duration: u64,
    pub check_interval: u64,
}

impl View for Config {
    type V = ConfigView;

    open spec fn view(&self) -> ConfigView {
        ConfigView {
            simple_mode: self.simple_mode,
            blocking_stage: self.blocking_stage.deep_view(),
            blocking_jobs: self.blocking_jobs.deep_view(),
            pre_block_duration: self.pre_block_duration,
            post_block_duration: self.post_block_duration,
            check_interval: self.check_interval,
        }
    }
}

impl Config {
    /// Builds the configuration record.  A blocking stage or a non-empty
    /// blocking-job list makes blanket blocking meaningless, so either one
    /// forces advanced mode: `simple_mode` then ends up `false` no matter
    /// what was requested.
    pub fn new(
        simple_mode_requested: bool,
        blocking_stage: Option<String>,
        blocking_jobs: Vec<String>,
        pre_block_duration: u64,
        post_block_duration: u64,
        check_interval: u64,
    ) -> (cfg: Config)
        ensures
            cfg@.blocking_stage == blocking_stage.deep_view(),
            cfg@.blocking_jobs == blocking_jobs.deep_view(),
            cfg@.pre_block_duration == pre_block_duration,
            cfg@.post_block_duration == post_block_duration,
            cfg@.check_interval == check_interval,
            cfg@.simple_mode == (blocking_stage is None && blocking_jobs@.len() == 0
                && simple_mode_requested),
    {
        let has_blocking_config = blocking_stage.is_some() || blocking_jobs.len() > 0;
        let simple_mode = if has_blocking_config {
            false
        } else {
            simple_mode_requested
        };
        Config {
            simple_mode,
            blocking_stage,
            blocking_jobs,
            pre_block_duration,
            post_block_duration,
            check_interval,
        }
    }
}

/// A failed fetch: either a non-success HTTP answer, carrying its status code
/// and response body, or a transport failure carrying the underlying error
/// text.
#[derive(Debug, PartialEq, Eq)]
pub enum FetchError {
    Http { status: u16, body: String },
    Transport { message: String },
}

/// The model of a [`FetchError`].
pub enum FetchErrorView {
    Http { status: u16, body: Seq<char> },
    Transport { message: Seq<char> },
}

impl View for FetchError {
    type V = FetchErrorView;

    open spec fn view(&self) -> FetchErrorView {
        match self {
            FetchError::Http { status, body } => FetchErrorView::Http {
                status: *status,
                body: body@,
            },
            FetchError::Transport { message } => FetchErrorView::Transport { message: message@ },
        }
    }
}

/// The job statuses that count as active: `running` and `pending`.
pub open spec fn is_active_job_status(s: Seq<char>) -> bool {
    s == "running"@ || s == "pending"@
}

/// The pipeline statuses that count as active: `running`, `pending` and
/// `created`.
pub open spec fn is_active_pipeline_status(s: Seq<char>) -> bool {
    s == "running"@ || s == "pending"@ || s == "created"@
}

/// Compares a text value with a literal by their character sequences.
pub fn text_eq(a: &String, lit: &str) -> (r: bool)
    ensures
        r == (a@ == lit@),
{
    let other: String = lit.to_owned();
    *a == other
}

/// Whether a job status is active, decided exactly by
/// [`is_active_job_status`].
pub fn job_status_active(status: &String) -> (r: bool)
    ensures
        r == is_active_job_status(status@),
{
    text_eq(status, "running") || text_eq(status, "pending")
}

/// Whether a pipeline status is active, decided exactly by
/// [`is_active_pipeline_status`].
pub fn pipeline_status_active(status: &String) -> (r: bool)
    ensures
        r == is_active_pipeline_status(status@),
{
    text_eq(status, "running") || text_eq(status, "pending") || text_eq(status, "created")
}

/// Whether any element of `names` equals `target`, by character sequences.
pub fn names_contain(names: &Vec<String>, target: &String) -> (r: bool)
    ensures
        r == names.deep_view().contains(target@),
{
    let mut i: usize = 0;
    while i < names.len()
        invariant
            i <= names.len(),
            forall|k: int| 0 <= k < i ==> names.deep_view()[k] != target@,
        decreases names.len() - i,
    {
        if text_eq(&names[i], target.as_str()) {
            assert(names.deep_view()[i as int] == target@);
            assert(names.deep_view().contains(target@));
            return true;
        }
        i += 1;
    }
    false
}

} // verus!
