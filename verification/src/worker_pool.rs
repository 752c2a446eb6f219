//! The task queue and the worker-side steps of a task's lifecycle.
//!
//! The pool's queue is an ordered, first-in-first-out sequence of task
//! descriptors. A fixed number of workers consume it: each repeatedly takes
//! the front descriptor, marks its task RUNNING, has the subprocess run, and
//! records the outcome. The blocking parts (waiting on an empty queue,
//! running the subprocess) belong to the embedding application; every
//! decision between them is here.

use vstd::prelude::*;
use crate::execution::classify_execution;
use crate::models::{CreateTaskRequest, RequestModel, TaskStatusEnum};
use crate::server::TaskStatus;

verus! {

/// The unit of work handed from submission to a worker via the queue.
pub struct TaskInfo {
    pub id: String,
    pub task_request: CreateTaskRequest,
}

/// Model of a `TaskInfo`.
pub struct TaskInfoModel {
    pub id: Seq<char>,
    pub task_request: RequestModel,
}

impl View for TaskInfo {
    type V = TaskInfoModel;

    open spec fn view(&self) -> TaskInfoModel {
        TaskInfoModel { id: self.id@, task_request: self.task_request@ }
    }
}

impl TaskInfo {
    /// Build a descriptor from an identifier and the submitted request.
    pub fn new(id: String, task_request: CreateTaskRequest) -> (r: TaskInfo)
        ensures
            r@ == (TaskInfoModel { id: id@, task_request: task_request@ }),
    {
        TaskInfo { id, task_request }
    }
}

/// The worker pool: a fixed number of workers and the queue of descriptors
/// not yet taken by any of them.
pub struct WorkerPool {
    workers_count: usize,
    queue: Vec<TaskInfo>,
}

impl WorkerPool {
    /// The descriptors submitted and not yet taken, oldest first.
    pub closed spec fn queue_model(&self) -> Seq<TaskInfoModel> {
        self.queue@.map_values(|t: TaskInfo| t@)
    }

    /// The number of workers, fixed at construction.
    pub closed spec fn pool_size(&self) -> usize {
        self.workers_count
    }

    /// Create a pool of `workers_count` workers with an empty queue.
    pub fn new(workers_count: usize) -> (r: WorkerPool)
        ensures
            r.pool_size() == workers_count,
            r.queue_model() == Seq::<TaskInfoModel>::empty(),
    {
        let r = WorkerPool { workers_count, queue: Vec::new() };
        proof {
            assert(r.queue_model() =~= Seq::<TaskInfoModel>::empty());
        }
        r
    }

    /// Enqueue a descriptor behind all waiting ones. Submission never blocks
    /// and is never rejected: the queue is unbounded.
    pub fn do_task(&mut self, task_info: TaskInfo)
        ensures
            final(self).pool_size() == old(self).pool_size(),
            final(self).queue_model() == old(self).queue_model().push(task_info@),
    {
        self.queue.push(task_info);
        proof {
            assert(self.queue_model() =~= old(self).queue_model().push(task_info@));
        }
    }

    /// Number of descriptors not yet taken by a worker.
    pub fn get_task_amount(&self) -> (r: usize)
        ensures
            r == self.queue_model().len(),
    {
        self.queue.len()
    }

    /// A worker takes the oldest waiting descriptor, if there is one.
    pub fn take_task(&mut self) -> (r: Option<TaskInfo>)
        ensures
            final(self).pool_size() == old(self).pool_size(),
            old(self).queue_model().len() == 0 ==> ({
                &&& r is None
                &&& final(self).queue_model() == old(self).queue_model()
            }),
            old(self).queue_model().len() > 0 ==> ({
                &&& r matches Some(t)
                &&& t@ == old(self).queue_model()[0]
                &&& final(self).queue_model() == old(self).queue_model().drop_first()
            }),
    {
        if self.queue.len() == 0 {
            None
        } else {
            let t = self.queue.remove(0);
            proof {
                assert(self.queue_model() =~= old(self).queue_model().drop_first());
            }
            Some(t)
        }
    }
}

/// The worker-side completion step: classify the subprocess outcome and
/// record it. The task's record moves from RUNNING to SUCCESS when the
/// subprocess exited with code 0 and to ERROR otherwise; stdout is kept
/// verbatim, and the captured stderr is kept exactly when the run failed.
pub fn complete_task(
    task_status: &mut TaskStatus,
    id: &str,
    stdout: String,
    stderr: String,
    exit_success: bool,
)
    requires
        old(task_status).wf(),
        old(task_status)@.contains_key(id@),
        old(task_status)@[id@].status == TaskStatusEnum::RUNNING,
    ensures
        final(task_status).wf(),
        final(task_status)@.contains_key(id@),
        final(task_status)@ == old(task_status)@.insert(id@, final(task_status)@[id@]),
        ({
            let r = final(task_status)@[id@];
            let o = old(task_status)@[id@];
            &&& r.status == (if exit_success { TaskStatusEnum::SUCCESS } else { TaskStatusEnum::ERROR })
            &&& r.result.stdout == stdout@
            &&& (exit_success ==> r.result.stderr is None)
            &&& (!exit_success ==> r.result.stderr == Some(stderr@))
            &&& r.meta.created_at == o.meta.created_at
            &&& r.meta.started_at == o.meta.started_at
            &&& r.meta.finished_at is Some
        }),
{
    let (out, err, outcome) = classify_execution(stdout, stderr, exit_success);
    task_status.finish_running_task(id, out, err, outcome);
}

/// The queue is exactly as deep as what was submitted and not yet taken:
/// submissions on top of a backlog add their count, and each take removes
/// one.
pub proof fn lemma_pending_count(backlog: Seq<TaskInfoModel>, submitted: Seq<TaskInfoModel>)
    ensures
        (backlog + submitted).len() == backlog.len() + submitted.len(),
        backlog.len() == 0 ==> (backlog + submitted).len() == submitted.len(),
        (backlog + submitted).len() > 0 ==> (backlog + submitted).drop_first().len()
            == backlog.len() + submitted.len() - 1,
{
}

} // verus!
