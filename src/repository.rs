use vstd::prelude::*;

use crate::task::{Task, TaskRecord};

verus! {

/// A store of task records keyed by identifier, held in memory.
///
/// Every write replaces the whole record under its identifier; at most one
/// record is held per identifier.
pub struct TaskRepository {
    tasks: Vec<Task>,
    records: Ghost<Map<Seq<char>, TaskRecord>>,
}

impl View for TaskRepository {
    type V = Map<Seq<char>, TaskRecord>;

    closed spec fn view(&self) -> Map<Seq<char>, TaskRecord> {
        self.records@
    }
}

impl TaskRepository {
    /// The held tasks have distinct identifiers, and the map of records
    /// is exactly what they hold.
    pub closed spec fn well_formed(&self) -> bool {
        &&& forall|i: int, j: int|
            0 <= i < j < self.tasks@.len() ==> self.tasks@[i]@.global_task_id
                != self.tasks@[j]@.global_task_id
        &&& forall|i: int|
            0 <= i < self.tasks@.len() ==> #[trigger] self.records@.contains_key(
                self.tasks@[i]@.global_task_id,
            ) && self.records@[self.tasks@[i]@.global_task_id] == self.tasks@[i]@
        &&& forall|k: Seq<char>|
            #[trigger] self.records@.contains_key(k) ==> exists|i: int|
                0 <= i < self.tasks@.len() && self.tasks@[i]@.global_task_id == k
    }

    /// An empty store.
    pub fn new() -> (r: TaskRepository)
        ensures
            r.well_formed(),
            r@ == Map::<Seq<char>, TaskRecord>::empty(),
    {
        TaskRepository { tasks: Vec::new(), records: Ghost(Map::empty()) }
    }

    /// The position of the task stored under `global_task_id`, if any.
    fn position(&self, global_task_id: &String) -> (r: Option<usize>)
        requires
            self.well_formed(),
        ensures
            match r {
                Some(i) => i < self.tasks@.len() && self.tasks@[i as int]@.global_task_id
                    == global_task_id@,
                None => !self@.contains_key(global_task_id@),
            },
    {
        let mut i: usize = 0;
        while i < self.tasks.len()
            invariant
                self.well_formed(),
                i <= self.tasks@.len(),
                forall|j: int| 0 <= j < i ==> self.tasks@[j]@.global_task_id != global_task_id@,
            decreases self.tasks@.len() - i,
        {
            if self.tasks[i].global_task_id == *global_task_id {
                return Some(i);
            }
            i = i + 1;
        }
        proof {
            if self@.contains_key(global_task_id@) {
                let k = global_task_id@;
                assert(self.records@.contains_key(k));
            }
        }
        None
    }

    /// The record stored under `global_task_id`, or `None` if nothing was
    /// ever written under it.
    pub fn get_task(&self, global_task_id: &String) -> (r: Option<Task>)
        requires
            self.well_formed(),
        ensures
            match r {
                Some(t) => self@.contains_key(global_task_id@) && t@ == self@[global_task_id@]
                    && t@.global_task_id == global_task_id@,
                None => !self@.contains_key(global_task_id@),
            },
    {
        match self.position(global_task_id) {
            Some(i) => Some(self.tasks[i].duplicate()),
            None => None,
        }
    }

    /// Writes the whole task under its identifier, creating the record or
    /// replacing the one there.
    pub fn put_task(&mut self, task: Task)
        requires
            old(self).well_formed(),
        ensures
            final(self).well_formed(),
            final(self)@ == old(self)@.insert(task@.global_task_id, task@),
    {
        let ghost key = task@.global_task_id;
        let ghost rec = task@;
        let ghost before = self.tasks@;
        let pos = self.position(&task.global_task_id);
        match pos {
            Some(i) => {
                self.tasks.set(i, task);
            },
            None => {
                self.tasks.push(task);
            },
        }
        self.records = Ghost(self.records@.insert(key, rec));
        proof {
            assert forall|k: Seq<char>| #[trigger] self.records@.contains_key(k) implies exists|
                i: int,
            | 0 <= i < self.tasks@.len() && self.tasks@[i]@.global_task_id == k by {
                if k == key {
                    match pos {
                        Some(i) => assert(self.tasks@[i as int]@.global_task_id == k),
                        None => assert(self.tasks@[before.len() as int]@.global_task_id == k),
                    }
                } else {
                    assert(old(self).records@.contains_key(k));
                    let j = choose|j: int|
                        0 <= j < before.len() && before[j]@.global_task_id == k;
                    assert(self.tasks@[j]@.global_task_id == k);
                }
            }
            assert forall|i: int|
                0 <= i < self.tasks@.len() implies #[trigger] self.records@.contains_key(
                self.tasks@[i]@.global_task_id,
            ) && self.records@[self.tasks@[i]@.global_task_id] == self.tasks@[i]@ by {
                if self.tasks@[i]@.global_task_id != key {
                    assert(before[i]@ == self.tasks@[i]@);
                    assert(old(self).records@.contains_key(before[i]@.global_task_id));
                }
            }
        }
    }
}

/// The records held after writing `writes` in order into an empty store.
pub open spec fn stored_after(writes: Seq<TaskRecord>) -> Map<Seq<char>, TaskRecord>
    decreases writes.len(),
{
    if writes.len() == 0 {
        Map::empty()
    } else {
        let last = writes.last();
        stored_after(writes.drop_last()).insert(last.global_task_id, last)
    }
}

/// A store holds a record under an identifier only if some write was made
/// under it: looking up an identifier never written finds nothing.
pub proof fn lemma_unwritten_absent(writes: Seq<TaskRecord>, id: Seq<char>)
    requires
        forall|i: int| 0 <= i < writes.len() ==> #[trigger] writes[i].global_task_id != id,
    ensures
        !stored_after(writes).contains_key(id),
    decreases writes.len(),
{
    if writes.len() > 0 {
        let rest = writes.drop_last();
        assert forall|i: int| 0 <= i < rest.len() implies #[trigger] rest[i].global_task_id != id by {
            assert(rest[i] == writes[i]);
        }
        lemma_unwritten_absent(rest, id);
        assert(writes.last() == writes[writes.len() - 1]);
    }
}

/// Reading back what was just written under an identifier gives that
/// record, field for field, whatever the store held before: `before` and
/// `after` are the stores on either side of a `put_task` of `task`.
pub proof fn lemma_put_then_get(before: TaskRepository, after: TaskRepository, task: TaskRecord)
    requires
        after@ == before@.insert(task.global_task_id, task),
    ensures
        after@.contains_key(task.global_task_id),
        after@[task.global_task_id] == task,
{
}

} // verus!
