//! Request, response and status-record types of the service, together with
//! their mathematical models.

use vstd::prelude::*;

verus! {

/// Kind of payload a task carries: a python script or a base64-encoded binary.
#[derive(Clone, Copy, Debug, PartialEq, Eq, Structural)]
pub enum TaskType {
    Python,
    Bin,
}

/// A task submission: payload kind, raw payload and one argument string.
#[derive(Clone, Debug, PartialEq)]
pub struct CreateTaskRequest {
    pub task_type: TaskType,
    /// Python source, or base64-encoded binary data.
    pub file: String,
    /// Arguments handed to the executable.
    pub args: String,
}

/// Model of a `CreateTaskRequest`.
pub struct RequestModel {
    pub task_type: TaskType,
    pub file: Seq<char>,
    pub args: Seq<char>,
}

impl View for CreateTaskRequest {
    type V = RequestModel;

    open spec fn view(&self) -> RequestModel {
        RequestModel { task_type: self.task_type, file: self.file@, args: self.args@ }
    }
}

impl CreateTaskRequest {
    pub fn new(task_type: TaskType, file: String, args: String) -> (r: CreateTaskRequest)
        ensures
            r@ == (RequestModel { task_type, file: file@, args: args@ }),
    {
        CreateTaskRequest { task_type, file, args }
    }
}

/// A status query: the identifier returned at submission.
#[derive(Clone, Debug, PartialEq)]
pub struct GetStatusRequest {
    pub id: String,
}

/// A queue-depth query carries no data.
#[derive(Clone, Debug, PartialEq)]
pub struct GetTaskCountRequest;

/// Answer to a submission: the fresh task identifier.
#[derive(Clone, Debug, PartialEq)]
pub struct CreateTaskResponse {
    pub id: String,
}

/// Answer to a queue-depth query.
#[derive(Clone, Debug, PartialEq)]
pub struct GetTaskCountResponse {
    pub tasks: usize,
}

/// Status of a task. `NOTEXIST` is a sentinel answered on a lookup miss and
/// is never stored.
#[derive(Clone, Copy, Debug, PartialEq, Eq, Structural)]
pub enum TaskStatusEnum {
    WAIT,
    RUNNING,
    SUCCESS,
    ERROR,
    NOTEXIST,
}

/// A status is terminal when no further transition may leave it.
pub open spec fn is_terminal(s: TaskStatusEnum) -> bool {
    s == TaskStatusEnum::SUCCESS || s == TaskStatusEnum::ERROR
}

/// Timestamps of a task: creation always, start and finish once reached.
#[derive(Clone, Debug, PartialEq)]
pub struct MetaInformation {
    pub created_at: String,
    pub started_at: Option<String>,
    pub finished_at: Option<String>,
}

/// Captured output of a finished task.
#[derive(Clone, Debug, PartialEq)]
pub struct GetStatusResult {
    pub stdout: String,
    pub stderr: Option<String>,
}

/// The queryable record of one task's progress and outcome.
#[derive(Clone, Debug, PartialEq)]
pub struct GetStatusResponse {
    pub status: TaskStatusEnum,
    pub meta: MetaInformation,
    pub result: GetStatusResult,
}

/// View of an optional piece of text.
pub open spec fn opt_text(o: Option<String>) -> Option<Seq<char>> {
    match o {
        Some(s) => Some(s@),
        None => None,
    }
}

/// Model of `MetaInformation`.
pub struct MetaModel {
    pub created_at: Seq<char>,
    pub started_at: Option<Seq<char>>,
    pub finished_at: Option<Seq<char>>,
}

impl View for MetaInformation {
    type V = MetaModel;

    open spec fn view(&self) -> MetaModel {
        MetaModel {
            created_at: self.created_at@,
            started_at: opt_text(self.started_at),
            finished_at: opt_text(self.finished_at),
        }
    }
}

/// Model of `GetStatusResult`.
pub struct ResultModel {
    pub stdout: Seq<char>,
    pub stderr: Option<Seq<char>>,
}

impl View for GetStatusResult {
    type V = ResultModel;

    open spec fn view(&self) -> ResultModel {
        ResultModel { stdout: self.stdout@, stderr: opt_text(self.stderr) }
    }
}

/// Model of `GetStatusResponse`.
pub struct RecordModel {
    pub status: TaskStatusEnum,
    pub meta: MetaModel,
    pub result: ResultModel,
}

impl View for GetStatusResponse {
    type V = RecordModel;

    open spec fn view(&self) -> RecordModel {
        RecordModel { status: self.status, meta: self.meta@, result: self.result@ }
    }
}

/// Shape of a record right after submission: WAIT, not yet started or
/// finished, no output.
pub open spec fn is_initial_wait(r: RecordModel) -> bool {
    &&& r.status == TaskStatusEnum::WAIT
    &&& r.meta.started_at is None
    &&& r.meta.finished_at is None
    &&& r.result.stdout == Seq::<char>::empty()
    &&& r.result.stderr is None
}

/// Shape of the sentinel record answered on a lookup miss.
pub open spec fn is_not_exist(r: RecordModel) -> bool {
    &&& r.status == TaskStatusEnum::NOTEXIST
    &&& r.meta.started_at is None
    &&& r.meta.finished_at is None
    &&& r.result.stdout == Seq::<char>::empty()
    &&& r.result.stderr is None
}

/// Relies on chrono's `Utc::now` (formatted with `to_string`): the current
/// time, of which nothing is assumed.
#[verifier::external_body]
pub(crate) fn utc_now_string() -> String {
    chrono::Utc::now().to_string()
}

impl GetStatusResponse {
    /// Fresh record for a just-submitted task: WAIT, created now.
    pub fn new_utc_status() -> (r: GetStatusResponse)
        ensures
            is_initial_wait(r@),
    {
        let meta = MetaInformation {
            created_at: utc_now_string(),
            started_at: None,
            finished_at: None,
        };
        let result = GetStatusResult { stdout: String::new(), stderr: None };
        GetStatusResponse { status: TaskStatusEnum::WAIT, meta, result }
    }

    /// Sentinel record answered when an identifier is unknown.
    pub fn new_error_status() -> (r: GetStatusResponse)
        ensures
            is_not_exist(r@),
    {
        let meta = MetaInformation {
            created_at: utc_now_string(),
            started_at: None,
            finished_at: None,
        };
        let result = GetStatusResult { stdout: String::new(), stderr: None };
        GetStatusResponse { status: TaskStatusEnum::NOTEXIST, meta, result }
    }

    /// A copy whose model equals this record's.
    pub fn duplicate(&self) -> (r: GetStatusResponse)
        ensures
            r@ == self@,
    {
        GetStatusResponse {
            status: self.status,
            meta: MetaInformation {
                created_at: self.meta.created_at.clone(),
                started_at: clone_opt_text(&self.meta.started_at),
                finished_at: clone_opt_text(&self.meta.finished_at),
            },
            result: GetStatusResult {
                stdout: self.result.stdout.clone(),
                stderr: clone_opt_text(&self.result.stderr),
            },
        }
    }
}

/// A copy of an optional piece of text, equal in model.
pub fn clone_opt_text(o: &Option<String>) -> (r: Option<String>)
    ensures
        opt_text(r) == opt_text(*o),
{
    match o {
        Some(s) => Some(s.clone()),
        None => None,
    }
}

} // verus!
