//! The dispatch facade: the three operations the transport layer calls.

use vstd::prelude::*;
use crate::models::{
    CreateTaskRequest, CreateTaskResponse, GetStatusRequest, GetStatusResponse,
    GetTaskCountResponse, RecordModel, is_initial_wait, is_not_exist,
};
use crate::server::{TaskStatus, status_of};
use crate::worker_pool::{TaskInfo, TaskInfoModel, WorkerPool};

verus! {

/// Every descriptor in the queue names a registered task. Submission keeps
/// this by registering the WAIT record before it enqueues; a worker taking
/// a descriptor whose identifier the store does not know would be an
/// invariant violation, fatal by the store's transition contracts.
pub open spec fn queued_ids_registered(
    queue: Seq<TaskInfoModel>,
    records: Map<Seq<char>, RecordModel>,
) -> bool {
    forall|i: int| 0 <= i < queue.len() ==> records.contains_key((#[trigger] queue[i]).id)
}

/// Submit a task: register a WAIT record under a fresh identifier, then
/// enqueue the descriptor — in that order, so a worker never takes a
/// descriptor whose identifier is unregistered. The identifier is returned
/// at once; success or failure surfaces only through later status queries.
pub fn create_task(
    request: CreateTaskRequest,
    worker_pool: &mut WorkerPool,
    task_status: &mut TaskStatus,
) -> (r: CreateTaskResponse)
    requires
        old(task_status).wf(),
    ensures
        final(task_status).wf(),
        final(worker_pool).pool_size() == old(worker_pool).pool_size(),
        final(task_status)@.contains_key(r.id@),
        final(task_status)@ == old(task_status)@.insert(r.id@, final(task_status)@[r.id@]),
        is_initial_wait(final(task_status)@[r.id@]),
        final(worker_pool).queue_model() == old(worker_pool).queue_model().push(
            (TaskInfoModel { id: r.id@, task_request: request@ }),
        ),
        queued_ids_registered(old(worker_pool).queue_model(), old(task_status)@)
            ==> queued_ids_registered(final(worker_pool).queue_model(), final(task_status)@),
{
    let id = task_status.add_new_task();
    let task_info = TaskInfo::new(id.clone(), request);
    worker_pool.do_task(task_info);
    proof {
        let q0 = old(worker_pool).queue_model();
        let q1 = worker_pool.queue_model();
        if queued_ids_registered(q0, old(task_status)@) {
            assert forall|i: int| 0 <= i < q1.len() implies task_status@.contains_key(
                (#[trigger] q1[i]).id,
            ) by {
                if i < q0.len() {
                    assert(q1[i] == q0[i]);
                }
            }
        }
    }
    CreateTaskResponse { id }
}

/// A worker taking the queue's front descriptor finds its task registered,
/// and the registration of everything still queued is untouched.
pub proof fn lemma_take_preserves_registration(
    queue: Seq<TaskInfoModel>,
    records: Map<Seq<char>, RecordModel>,
)
    requires
        queued_ids_registered(queue, records),
        queue.len() > 0,
    ensures
        records.contains_key(queue[0].id),
        queued_ids_registered(queue.drop_first(), records),
{
    assert forall|i: int| 0 <= i < queue.drop_first().len() implies records.contains_key(
        (#[trigger] queue.drop_first()[i]).id,
    ) by {
        assert(queue.drop_first()[i] == queue[i + 1]);
    }
}

/// Query a task's status: the current record, or the NOTEXIST sentinel for
/// an identifier that was never issued — a normal answer, not a fault.
pub fn get_status(request: GetStatusRequest, task_status: &TaskStatus) -> (r: GetStatusResponse)
    requires
        task_status.wf(),
    ensures
        task_status@.contains_key(request.id@) ==> r@ == task_status@[request.id@],
        !task_status@.contains_key(request.id@) ==> is_not_exist(r@),
        r.status == status_of(task_status@, request.id@),
{
    task_status.get_status_by_id(request.id.as_str())
}

/// Query the queue depth: how many descriptors no worker has taken yet.
pub fn get_task_count(worker_pool: &WorkerPool) -> (r: GetTaskCountResponse)
    ensures
        r.tasks == worker_pool.queue_model().len(),
{
    GetTaskCountResponse { tasks: worker_pool.get_task_amount() }
}

} // verus!
