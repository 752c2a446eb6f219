//! The status store: a mapping from task identifier to status record, with
//! the two lifecycle transitions a worker drives (start, finish), and the
//! bundle of store and pool the service is built from.

use vstd::prelude::*;
use crate::models::{
    GetStatusResponse, GetStatusResult, MetaInformation, RecordModel, TaskStatusEnum,
    clone_opt_text, is_initial_wait, is_not_exist, is_terminal, opt_text, utc_now_string,
};
use crate::worker_pool::WorkerPool;

verus! {

/// One stored entry: a task identifier with its status record.
pub struct StatusEntry {
    pub id: String,
    pub record: GetStatusResponse,
}

/// The record each identifier is mapped to by a sequence of entries; later
/// entries win, though a well-formed store never repeats an identifier.
pub closed spec fn entry_map(s: Seq<StatusEntry>) -> Map<Seq<char>, RecordModel>
    decreases s.len(),
{
    if s.len() == 0 {
        Map::empty()
    } else {
        entry_map(s.drop_last()).insert(s.last().id@, s.last().record@)
    }
}

/// No identifier occurs twice.
pub closed spec fn unique_ids(s: Seq<StatusEntry>) -> bool {
    forall|i: int, j: int| 0 <= i < j < s.len() ==> s[i].id@ != s[j].id@
}

proof fn lemma_entry_map_absent(s: Seq<StatusEntry>, k: Seq<char>)
    requires
        forall|i: int| 0 <= i < s.len() ==> s[i].id@ != k,
    ensures
        !entry_map(s).contains_key(k),
    decreases s.len(),
{
    if s.len() > 0 {
        assert(forall|i: int| 0 <= i < s.drop_last().len() ==> s.drop_last()[i].id@ != k);
        lemma_entry_map_absent(s.drop_last(), k);
        assert(s.last().id@ != k);
    }
}

proof fn lemma_entry_map_index(s: Seq<StatusEntry>, i: int)
    requires
        unique_ids(s),
        0 <= i < s.len(),
    ensures
        entry_map(s).contains_key(s[i].id@),
        entry_map(s)[s[i].id@] == s[i].record@,
    decreases s.len(),
{
    if i < s.len() - 1 {
        assert(unique_ids(s.drop_last())) by {
            assert(forall|a: int, b: int|
                0 <= a < b < s.drop_last().len() ==> s.drop_last()[a].id@ != s[b].id@);
        }
        lemma_entry_map_index(s.drop_last(), i);
        assert(s.last().id@ != s[i].id@);
    }
}

proof fn lemma_entry_map_push(s: Seq<StatusEntry>, e: StatusEntry)
    ensures
        entry_map(s.push(e)) == entry_map(s).insert(e.id@, e.record@),
{
    assert(s.push(e).drop_last() =~= s);
    assert(s.push(e).last() == e);
}

proof fn lemma_entry_map_update(s: Seq<StatusEntry>, i: int, e: StatusEntry)
    requires
        unique_ids(s),
        0 <= i < s.len(),
        e.id@ == s[i].id@,
    ensures
        entry_map(s.update(i, e)) == entry_map(s).insert(e.id@, e.record@),
        unique_ids(s.update(i, e)),
    decreases s.len(),
{
    let t = s.update(i, e);
    assert(t.len() == s.len());
    assert(unique_ids(t)) by {
        assert(forall|a: int| 0 <= a < t.len() ==> t[a].id@ == s[a].id@);
    }
    if i == s.len() - 1 {
        assert(t.drop_last() =~= s.drop_last());
        assert(t.last() == e);
        assert(entry_map(t) == entry_map(s.drop_last()).insert(e.id@, e.record@));
        assert(entry_map(s).insert(e.id@, e.record@)
            == entry_map(s.drop_last()).insert(s.last().id@, s.last().record@).insert(e.id@, e.record@));
        assert(entry_map(s.drop_last()).insert(s.last().id@, s.last().record@).insert(e.id@, e.record@)
            =~= entry_map(s.drop_last()).insert(e.id@, e.record@));
    } else {
        assert(unique_ids(s.drop_last())) by {
            assert(forall|a: int, b: int|
                0 <= a < b < s.drop_last().len() ==> s.drop_last()[a].id@ != s[b].id@);
        }
        lemma_entry_map_update(s.drop_last(), i, e);
        assert(t.drop_last() =~= s.drop_last().update(i, e));
        assert(t.last() == s.last());
        assert(entry_map(t) == entry_map(s.drop_last().update(i, e)).insert(s.last().id@, s.last().record@));
        assert(s.last().id@ != e.id@);
        assert(entry_map(s.drop_last()).insert(e.id@, e.record@).insert(s.last().id@, s.last().record@)
            =~= entry_map(s.drop_last()).insert(s.last().id@, s.last().record@).insert(e.id@, e.record@));
    }
}

/// The status a lookup answers for `id` in store contents `m`: the stored
/// status, or the NOTEXIST sentinel on a miss.
pub open spec fn status_of(m: Map<Seq<char>, RecordModel>, id: Seq<char>) -> TaskStatusEnum {
    if m.contains_key(id) {
        m[id].status
    } else {
        TaskStatusEnum::NOTEXIST
    }
}

/// Relies on uuid's `new_v4`, shown by its `Display` impl as the hyphenated
/// form of 36 characters. The identifier is random; nothing else is assumed.
#[verifier::external_body]
fn fresh_task_id() -> (r: String)
    ensures
        r@.len() == 36,
{
    uuid::Uuid::new_v4().to_string()
}

/// Task status store for all tasks of the service.
///
/// Its contents are modelled as a map from identifier to record. Records are
/// created in WAIT at submission, moved WAIT -> RUNNING -> SUCCESS/ERROR by
/// the worker owning the task, and never leave a terminal status.
pub struct TaskStatus {
    entries: Vec<StatusEntry>,
}

impl View for TaskStatus {
    type V = Map<Seq<char>, RecordModel>;

    closed spec fn view(&self) -> Map<Seq<char>, RecordModel> {
        entry_map(self.entries@)
    }
}

impl TaskStatus {
    /// Each identifier is stored at most once.
    pub closed spec fn wf(&self) -> bool {
        unique_ids(self.entries@)
    }

    /// Create an empty store.
    pub fn new() -> (r: TaskStatus)
        ensures
            r.wf(),
            r@ == Map::<Seq<char>, RecordModel>::empty(),
    {
        TaskStatus { entries: Vec::new() }
    }

    /// Index of the entry holding `id`, if any.
    fn find_index(&self, id: &str) -> (r: Option<usize>)
        requires
            self.wf(),
        ensures
            match r {
                Some(i) => {
                    &&& i < self.entries@.len()
                    &&& self.entries@[i as int].id@ == id@
                    &&& self@.contains_key(id@)
                    &&& self@[id@] == self.entries@[i as int].record@
                },
                None => {
                    &&& !self@.contains_key(id@)
                    &&& forall|j: int| 0 <= j < self.entries@.len() ==> self.entries@[j].id@ != id@
                },
            },
    {
        let key: String = id.to_owned();
        let n = self.entries.len();
        let mut i: usize = 0;
        while i < n
            invariant
                self.wf(),
                n == self.entries@.len(),
                i <= n,
                key@ == id@,
                forall|j: int| 0 <= j < i ==> self.entries@[j].id@ != id@,
            decreases n - i,
        {
            if self.entries[i].id == key {
                proof {
                    lemma_entry_map_index(self.entries@, i as int);
                }
                return Some(i);
            }
            i += 1;
        }
        proof {
            lemma_entry_map_absent(self.entries@, id@);
        }
        None
    }

    /// Current record for `id`, or the NOTEXIST sentinel if `id` is unknown.
    pub fn get_status_by_id(&self, id: &str) -> (r: GetStatusResponse)
        requires
            self.wf(),
        ensures
            self@.contains_key(id@) ==> r@ == self@[id@],
            !self@.contains_key(id@) ==> is_not_exist(r@),
            r.status == status_of(self@, id@),
    {
        match self.find_index(id) {
            Some(i) => self.entries[i].record.duplicate(),
            None => GetStatusResponse::new_error_status(),
        }
    }

    /// Map `id` to `record`, replacing any record it was mapped to before.
    fn insert_record(&mut self, id: String, record: GetStatusResponse)
        requires
            old(self).wf(),
        ensures
            final(self).wf(),
            final(self)@ == old(self)@.insert(id@, record@),
    {
        let entry = StatusEntry { id, record };
        match self.find_index(entry.id.as_str()) {
            Some(i) => {
                proof {
                    lemma_entry_map_update(self.entries@, i as int, entry);
                }
                self.entries[i] = entry;
            }
            None => {
                proof {
                    lemma_entry_map_push(self.entries@, entry);
                    let s = self.entries@;
                    assert forall|a: int, b: int|
                        0 <= a < b < s.push(entry).len() implies s.push(entry)[a].id@
                        != s.push(entry)[b].id@ by {
                        if b < s.len() {
                            assert(s.push(entry)[a] == s[a]);
                            assert(s.push(entry)[b] == s[b]);
                        } else {
                            assert(s.push(entry)[a] == s[a]);
                            assert(s.push(entry)[b] == entry);
                            assert(s[a].id@ != entry.id@);
                        }
                    }
                    assert(unique_ids(s.push(entry)));
                }
                self.entries.push(entry);
            }
        }
    }

    /// Register a just-submitted task: a fresh identifier is generated and
    /// mapped to a WAIT record with a creation timestamp; the identifier is
    /// returned.
    pub fn add_new_task(&mut self) -> (id: String)
        requires
            old(self).wf(),
        ensures
            final(self).wf(),
            id@.len() == 36,
            final(self)@.contains_key(id@),
            final(self)@ == old(self)@.insert(id@, final(self)@[id@]),
            is_initial_wait(final(self)@[id@]),
    {
        let status = GetStatusResponse::new_utc_status();
        let id = fresh_task_id();
        self.insert_record(id.clone(), status);
        id
    }

    /// A worker picked the task up: WAIT becomes RUNNING and the start
    /// timestamp is set. The identifier must be registered and waiting; an
    /// unknown identifier here would mean a descriptor was enqueued without
    /// being registered first.
    pub fn start_running_task(&mut self, id: &str)
        requires
            old(self).wf(),
            old(self)@.contains_key(id@),
            old(self)@[id@].status == TaskStatusEnum::WAIT,
        ensures
            final(self).wf(),
            final(self)@.contains_key(id@),
            final(self)@ == old(self)@.insert(id@, final(self)@[id@]),
            ({
                let r = final(self)@[id@];
                let o = old(self)@[id@];
                &&& r.status == TaskStatusEnum::RUNNING
                &&& r.meta.created_at == o.meta.created_at
                &&& r.meta.started_at is Some
                &&& r.meta.finished_at == o.meta.finished_at
                &&& r.result == o.result
            }),
    {
        match self.find_index(id) {
            Some(i) => {
                let stored = &self.entries[i];
                let updated = GetStatusResponse {
                    status: TaskStatusEnum::RUNNING,
                    meta: MetaInformation {
                        created_at: stored.record.meta.created_at.clone(),
                        started_at: Some(utc_now_string()),
                        finished_at: clone_opt_text(&stored.record.meta.finished_at),
                    },
                    result: GetStatusResult {
                        stdout: stored.record.result.stdout.clone(),
                        stderr: clone_opt_text(&stored.record.result.stderr),
                    },
                };
                let entry = StatusEntry { id: stored.id.clone(), record: updated };
                proof {
                    lemma_entry_map_update(self.entries@, i as int, entry);
                }
                self.entries[i] = entry;
            }
            None => {
                proof {
                    assert(false);
                }
            }
        }
    }

    /// The task's subprocess came back: output and outcome are recorded,
    /// RUNNING becomes the given terminal status and the finish timestamp is
    /// set. Same fatal-on-unknown-identifier contract as starting.
    pub fn finish_running_task(
        &mut self,
        id: &str,
        stdout: String,
        stderr: Option<String>,
        execution_result: TaskStatusEnum,
    )
        requires
            old(self).wf(),
            old(self)@.contains_key(id@),
            old(self)@[id@].status == TaskStatusEnum::RUNNING,
            is_terminal(execution_result),
        ensures
            final(self).wf(),
            final(self)@.contains_key(id@),
            final(self)@ == old(self)@.insert(id@, final(self)@[id@]),
            ({
                let r = final(self)@[id@];
                let o = old(self)@[id@];
                &&& r.status == execution_result
                &&& r.result.stdout == stdout@
                &&& r.result.stderr == opt_text(stderr)
                &&& r.meta.created_at == o.meta.created_at
                &&& r.meta.started_at == o.meta.started_at
                &&& r.meta.finished_at is Some
            }),
    {
        match self.find_index(id) {
            Some(i) => {
                let stored = &self.entries[i];
                let updated = GetStatusResponse {
                    status: execution_result,
                    meta: MetaInformation {
                        created_at: stored.record.meta.created_at.clone(),
                        started_at: clone_opt_text(&stored.record.meta.started_at),
                        finished_at: Some(utc_now_string()),
                    },
                    result: GetStatusResult { stdout, stderr },
                };
                let entry = StatusEntry { id: stored.id.clone(), record: updated };
                proof {
                    lemma_entry_map_update(self.entries@, i as int, entry);
                }
                self.entries[i] = entry;
            }
            None => {
                proof {
                    assert(false);
                }
            }
        }
    }
}

/// An identifier that was never registered is answered with NOTEXIST.
pub proof fn lemma_unknown_id_not_exist(m: Map<Seq<char>, RecordModel>, id: Seq<char>)
    requires
        !m.contains_key(id),
    ensures
        status_of(m, id) == TaskStatusEnum::NOTEXIST,
{
}

/// Right after a submission that registered `id` with record `r`, a lookup
/// of `id` answers exactly `r`: a WAIT record with no start or finish
/// timestamp yet.
pub proof fn lemma_status_after_submit(
    m: Map<Seq<char>, RecordModel>,
    id: Seq<char>,
    r: RecordModel,
)
    requires
        is_initial_wait(r),
    ensures
        m.insert(id, r).contains_key(id),
        m.insert(id, r)[id] == r,
        status_of(m.insert(id, r), id) == TaskStatusEnum::WAIT,
        m.insert(id, r)[id].meta.started_at is None,
        m.insert(id, r)[id].meta.finished_at is None,
{
}

/// Lookups do not mutate: two reads of a terminal task's record answer the
/// very same record.
pub proof fn lemma_terminal_status_idempotent(
    m: Map<Seq<char>, RecordModel>,
    id: Seq<char>,
    r1: RecordModel,
    r2: RecordModel,
)
    requires
        m.contains_key(id),
        is_terminal(m[id].status),
        r1 == m[id],
        r2 == m[id],
    ensures
        r1 == r2,
{
}

/// Every transition the store offers replaces the record of a task that is
/// not yet terminal, so a terminal record is never touched again.
pub proof fn lemma_terminal_record_unchanged(
    m1: Map<Seq<char>, RecordModel>,
    m2: Map<Seq<char>, RecordModel>,
    subject: Seq<char>,
    id: Seq<char>,
    r: RecordModel,
)
    requires
        m1.contains_key(id),
        is_terminal(m1[id].status),
        m1.contains_key(subject),
        !is_terminal(m1[subject].status),
        m2 == m1.insert(subject, r),
    ensures
        m2.contains_key(id),
        m2[id] == m1[id],
{
    assert(subject != id);
}

/// Bundle of the two shared components the service hands around: the worker
/// pool with its queue, and the status store.
pub struct ServerInfo {
    pub worker_pool: WorkerPool,
    pub task_status: TaskStatus,
}

impl ServerInfo {
    /// Bundle an existing pool and store.
    pub fn new(worker_pool: WorkerPool, task_status: TaskStatus) -> (r: ServerInfo)
        ensures
            r.worker_pool == worker_pool,
            r.task_status == task_status,
    {
        ServerInfo { worker_pool, task_status }
    }
}

} // verus!
