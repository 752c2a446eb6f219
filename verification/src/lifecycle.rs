//! The state machine governing the whole dispatch subsystem, and the bound
//! it enforces: with a pool of N workers, at most N tasks are ever RUNNING
//! at the same time.
//!
//! A state holds every task's record together with, for each worker, the
//! identifier of the task it is currently executing. The three transitions
//! mirror what the verified operations do to the store: a submission
//! registers a fresh WAIT record, a free worker starts a waiting task, and a
//! worker finishing its task records the terminal outcome. The invariant
//! ties RUNNING records to busy workers one-to-one.

use vstd::prelude::*;
use crate::models::{RecordModel, TaskStatusEnum, is_initial_wait, is_terminal};

verus! {

/// The dispatch subsystem at one instant: every task's record, and for each
/// of the pool's workers the identifier it is executing, if any.
pub struct SystemModel {
    pub records: Map<Seq<char>, RecordModel>,
    pub workers: Seq<Option<Seq<char>>>,
}

/// Identifiers of the tasks recorded as RUNNING.
pub open spec fn running_ids(records: Map<Seq<char>, RecordModel>) -> Set<Seq<char>> {
    records.dom().filter(|id: Seq<char>| records[id].status == TaskStatusEnum::RUNNING)
}

/// What every reachable state keeps: finitely many records; no two workers
/// execute the same task; a task a worker holds is recorded RUNNING; and a
/// task recorded RUNNING is held by some worker.
pub open spec fn inv(s: SystemModel) -> bool {
    &&& s.records.dom().finite()
    &&& (forall|w1: int, w2: int|
        0 <= w1 < s.workers.len() && 0 <= w2 < s.workers.len() && w1 != w2
            && #[trigger] s.workers[w1] is Some ==> s.workers[w1] != #[trigger] s.workers[w2])
    &&& (forall|w: int|
        0 <= w < s.workers.len() && #[trigger] s.workers[w] is Some
            ==> s.records.contains_key(s.workers[w]->0) && s.records[s.workers[w]->0].status
            == TaskStatusEnum::RUNNING)
    &&& (forall|id: Seq<char>|
        s.records.contains_key(id) && (#[trigger] s.records[id]).status == TaskStatusEnum::RUNNING
            ==> exists|w: int| 0 <= w < s.workers.len() && #[trigger] s.workers[w] == Some(id))
}

/// The idle system: nothing recorded yet, every worker free.
pub open spec fn init(s: SystemModel) -> bool {
    &&& s.records == Map::<Seq<char>, RecordModel>::empty()
    &&& forall|w: int| 0 <= w < s.workers.len() ==> #[trigger] s.workers[w] is None
}

/// A submission: a fresh identifier is registered with an initial WAIT
/// record; the workers are untouched.
pub open spec fn submit_step(
    pre: SystemModel,
    post: SystemModel,
    id: Seq<char>,
    r: RecordModel,
) -> bool {
    &&& !pre.records.contains_key(id)
    &&& is_initial_wait(r)
    &&& post.records == pre.records.insert(id, r)
    &&& post.workers == pre.workers
}

/// A free worker takes a waiting task: the task's record becomes RUNNING
/// and the worker holds its identifier. No transition starts a task on a
/// busy worker.
pub open spec fn start_step(
    pre: SystemModel,
    post: SystemModel,
    w: int,
    id: Seq<char>,
    r: RecordModel,
) -> bool {
    &&& 0 <= w < pre.workers.len()
    &&& pre.workers[w] is None
    &&& pre.records.contains_key(id)
    &&& pre.records[id].status == TaskStatusEnum::WAIT
    &&& r.status == TaskStatusEnum::RUNNING
    &&& post.records == pre.records.insert(id, r)
    &&& post.workers == pre.workers.update(w, Some(id))
}

/// A worker's subprocess came back: the held task's record becomes terminal
/// and the worker is free again.
pub open spec fn finish_step(pre: SystemModel, post: SystemModel, w: int, r: RecordModel) -> bool {
    &&& 0 <= w < pre.workers.len()
    &&& pre.workers[w] is Some
    &&& is_terminal(r.status)
    &&& post.records == pre.records.insert(pre.workers[w]->0, r)
    &&& post.workers == pre.workers.update(w, None)
}

/// The idle system satisfies the invariant.
pub proof fn lemma_init_inv(s: SystemModel)
    requires
        init(s),
    ensures
        inv(s),
{
    assert(s.records.dom() =~= Set::<Seq<char>>::empty());
}

/// A submission preserves the invariant: the new record is WAIT, so the
/// tie between RUNNING records and busy workers is untouched.
pub proof fn lemma_submit_preserves_inv(
    pre: SystemModel,
    post: SystemModel,
    id: Seq<char>,
    r: RecordModel,
)
    requires
        inv(pre),
        submit_step(pre, post, id, r),
    ensures
        inv(post),
{
    assert forall|w: int|
        0 <= w < post.workers.len() && #[trigger] post.workers[w] is Some implies
        post.records.contains_key(post.workers[w]->0) && post.records[post.workers[w]->0].status
        == TaskStatusEnum::RUNNING by {
        assert(pre.workers[w] is Some);
        assert(pre.workers[w]->0 != id);
    }
    assert forall|i: Seq<char>|
        post.records.contains_key(i) && (#[trigger] post.records[i]).status
        == TaskStatusEnum::RUNNING implies exists|w: int|
        0 <= w < post.workers.len() && #[trigger] post.workers[w] == Some(i) by {
        assert(i != id);
        assert(pre.records.contains_key(i) && pre.records[i].status == TaskStatusEnum::RUNNING);
        let w = choose|w: int| 0 <= w < pre.workers.len() && #[trigger] pre.workers[w] == Some(i);
        assert(post.workers[w] == Some(i));
    }
}

/// Starting a task preserves the invariant: the task was WAIT, so no other
/// worker was holding it, and the worker that takes it was free.
pub proof fn lemma_start_preserves_inv(
    pre: SystemModel,
    post: SystemModel,
    w: int,
    id: Seq<char>,
    r: RecordModel,
)
    requires
        inv(pre),
        start_step(pre, post, w, id, r),
    ensures
        inv(post),
{
    // No worker holds `id` before the step: a held task is RUNNING, `id` is WAIT.
    assert forall|v: int| 0 <= v < pre.workers.len() implies #[trigger] pre.workers[v] != Some(id)
        by {
        if pre.workers[v] == Some(id) {
            assert(pre.records[id].status == TaskStatusEnum::RUNNING);
        }
    }
    assert forall|w1: int, w2: int|
        0 <= w1 < post.workers.len() && 0 <= w2 < post.workers.len() && w1 != w2
            && #[trigger] post.workers[w1] is Some implies post.workers[w1]
        != #[trigger] post.workers[w2] by {
        if w1 == w {
            assert(post.workers[w2] == pre.workers[w2]);
        } else if w2 == w {
            assert(post.workers[w1] == pre.workers[w1]);
        }
    }
    assert forall|v: int|
        0 <= v < post.workers.len() && #[trigger] post.workers[v] is Some implies
        post.records.contains_key(post.workers[v]->0) && post.records[post.workers[v]->0].status
        == TaskStatusEnum::RUNNING by {
        if v != w {
            assert(post.workers[v] == pre.workers[v]);
            assert(pre.workers[v]->0 != id || post.records[id] == r);
        }
    }
    assert forall|i: Seq<char>|
        post.records.contains_key(i) && (#[trigger] post.records[i]).status
        == TaskStatusEnum::RUNNING implies exists|v: int|
        0 <= v < post.workers.len() && #[trigger] post.workers[v] == Some(i) by {
        if i == id {
            assert(post.workers[w] == Some(i));
        } else {
            assert(pre.records.contains_key(i) && pre.records[i].status
                == TaskStatusEnum::RUNNING);
            let v = choose|v: int|
                0 <= v < pre.workers.len() && #[trigger] pre.workers[v] == Some(i);
            assert(v != w);
            assert(post.workers[v] == Some(i));
        }
    }
}

/// Finishing a task preserves the invariant: the worker frees itself and
/// its task's record leaves RUNNING for a terminal status.
pub proof fn lemma_finish_preserves_inv(
    pre: SystemModel,
    post: SystemModel,
    w: int,
    r: RecordModel,
)
    requires
        inv(pre),
        finish_step(pre, post, w, r),
    ensures
        inv(post),
{
    let id = pre.workers[w]->0;
    assert forall|w1: int, w2: int|
        0 <= w1 < post.workers.len() && 0 <= w2 < post.workers.len() && w1 != w2
            && #[trigger] post.workers[w1] is Some implies post.workers[w1]
        != #[trigger] post.workers[w2] by {
        if w1 != w && w2 != w {
            assert(post.workers[w1] == pre.workers[w1]);
            assert(post.workers[w2] == pre.workers[w2]);
        }
    }
    assert forall|v: int|
        0 <= v < post.workers.len() && #[trigger] post.workers[v] is Some implies
        post.records.contains_key(post.workers[v]->0) && post.records[post.workers[v]->0].status
        == TaskStatusEnum::RUNNING by {
        assert(v != w);
        assert(post.workers[v] == pre.workers[v]);
        assert(pre.workers[v] != pre.workers[w]);
        assert(pre.workers[v]->0 != id);
    }
    assert forall|i: Seq<char>|
        post.records.contains_key(i) && (#[trigger] post.records[i]).status
        == TaskStatusEnum::RUNNING implies exists|v: int|
        0 <= v < post.workers.len() && #[trigger] post.workers[v] == Some(i) by {
        assert(i != id);
        assert(pre.records.contains_key(i) && pre.records[i].status == TaskStatusEnum::RUNNING);
        let v = choose|v: int| 0 <= v < pre.workers.len() && #[trigger] pre.workers[v] == Some(i);
        assert(v != w);
        assert(post.workers[v] == Some(i));
    }
}

/// Identifiers held by the workers of `workers`.
spec fn held_ids(workers: Seq<Option<Seq<char>>>) -> Set<Seq<char>>
    decreases workers.len(),
{
    if workers.len() == 0 {
        Set::empty()
    } else {
        match workers.last() {
            Some(id) => held_ids(workers.drop_last()).insert(id),
            None => held_ids(workers.drop_last()),
        }
    }
}

proof fn lemma_held_ids_bound(workers: Seq<Option<Seq<char>>>)
    ensures
        held_ids(workers).finite(),
        held_ids(workers).len() <= workers.len(),
    decreases workers.len(),
{
    if workers.len() > 0 {
        lemma_held_ids_bound(workers.drop_last());
        if workers.last() is Some {
            vstd::set::axiom_set_insert_len(held_ids(workers.drop_last()), workers.last()->0);
        }
    }
}

proof fn lemma_held_ids_contains(workers: Seq<Option<Seq<char>>>, id: Seq<char>)
    ensures
        held_ids(workers).contains(id) <==> exists|w: int|
            0 <= w < workers.len() && #[trigger] workers[w] == Some(id),
    decreases workers.len(),
{
    if workers.len() > 0 {
        lemma_held_ids_contains(workers.drop_last(), id);
        if workers.last() == Some(id) {
            assert(workers[workers.len() - 1] == Some(id));
        } else {
            if held_ids(workers).contains(id) {
                let w = choose|w: int|
                    0 <= w < workers.drop_last().len() && #[trigger] workers.drop_last()[w]
                        == Some(id);
                assert(workers[w] == Some(id));
            }
            if exists|w: int| 0 <= w < workers.len() && #[trigger] workers[w] == Some(id) {
                let w = choose|w: int|
                    0 <= w < workers.len() && #[trigger] workers[w] == Some(id);
                assert(w < workers.len() - 1);
                assert(workers.drop_last()[w] == Some(id));
            }
        }
    }
}

/// The bound the pool enforces: in any state the invariant admits, the tasks
/// recorded RUNNING number at most the pool's workers. Every further
/// submitted task keeps its WAIT record until a worker frees up.
pub proof fn lemma_running_bounded(s: SystemModel)
    requires
        inv(s),
    ensures
        running_ids(s.records).finite(),
        running_ids(s.records).len() <= s.workers.len(),
{
    lemma_held_ids_bound(s.workers);
    assert forall|id: Seq<char>| running_ids(s.records).contains(id) implies held_ids(
        s.workers,
    ).contains(id) by {
        lemma_held_ids_contains(s.workers, id);
    }
    assert forall|id: Seq<char>| held_ids(s.workers).contains(id) implies running_ids(
        s.records,
    ).contains(id) by {
        lemma_held_ids_contains(s.workers, id);
        let w = choose|w: int| 0 <= w < s.workers.len() && #[trigger] s.workers[w] == Some(id);
        assert(s.records.contains_key(id) && s.records[id].status == TaskStatusEnum::RUNNING);
    }
    assert(running_ids(s.records) =~= held_ids(s.workers));
}

/// While every worker is busy, no start transition is enabled: the tasks
/// beyond the pool's capacity stay WAIT.
pub proof fn lemma_no_start_when_saturated(
    pre: SystemModel,
    post: SystemModel,
    w: int,
    id: Seq<char>,
    r: RecordModel,
)
    requires
        forall|v: int| 0 <= v < pre.workers.len() ==> #[trigger] pre.workers[v] is Some,
    ensures
        !start_step(pre, post, w, id, r),
{
}

} // verus!
