use vstd::prelude::*;

use crate::repository::TaskRepository;
use crate::task::{
    opt_view, transition_allowed, Task, TaskRecord, TaskState,
};

verus! {

/// Names a task by its identifier.
pub struct TaskIdentifier {
    pub global_task_id: String,
}

/// The result reference that completes a task.
pub struct TaskCompletionRequest {
    pub result_file: String,
}

/// What a user hands in to create a task.
pub struct SubmitTaskRequest {
    pub user_uuid: String,
    pub task_type: String,
    pub source_file: String,
}

/// The ways a request on tasks can fail.
#[derive(PartialEq, Eq, Structural, Clone, Copy, Debug)]
pub enum TaskError {
    /// No record is stored under the identifier.
    TaskNotFound,
    /// The store could not write the changed record.
    TaskUpdateFailure,
    /// The store could not write a new task.
    TaskCreationFailure,
    /// The requested state cannot be reached from the current one.
    BadTaskRequest,
}

/// The status code under which each error is reported to a caller.
pub open spec fn error_status(e: TaskError) -> u16 {
    match e {
        TaskError::TaskNotFound => 404,
        TaskError::TaskUpdateFailure => 424,
        TaskError::TaskCreationFailure => 424,
        TaskError::BadTaskRequest => 400,
    }
}

impl TaskError {
    /// The status code under which this error is reported.
    pub fn status_code(&self) -> (r: u16)
        ensures
            r == error_status(*self),
    {
        match self {
            TaskError::TaskNotFound => 404,
            TaskError::TaskUpdateFailure => 424,
            TaskError::TaskCreationFailure => 424,
            TaskError::BadTaskRequest => 400,
        }
    }
}

/// The record a transition writes: the loaded one with the new state and
/// result reference, every other field kept.
pub open spec fn transitioned(
    t: TaskRecord,
    new_state: TaskState,
    result_file: Option<Seq<char>>,
) -> TaskRecord {
    TaskRecord { state: new_state, result_file: result_file, ..t }
}

/// Decides a transition on a loaded record: `TaskNotFound` when nothing was
/// loaded, `BadTaskRequest` when the move is not allowed, and otherwise the
/// record to write back.
pub fn plan_transition(
    loaded: Option<Task>,
    new_state: TaskState,
    result_file: Option<String>,
) -> (r: Result<Task, TaskError>)
    ensures
        match loaded {
            None => r == Err::<Task, TaskError>(TaskError::TaskNotFound),
            Some(t) => if transition_allowed(t.state, new_state) {
                r is Ok && r->Ok_0@ == transitioned(t@, new_state, opt_view(result_file))
            } else {
                r == Err::<Task, TaskError>(TaskError::BadTaskRequest)
            },
        },
{
    let mut task = match loaded {
        Some(task) => task,
        None => return Err(TaskError::TaskNotFound),
    };
    if !task.can_transition_state(&new_state) {
        return Err(TaskError::BadTaskRequest);
    }
    task.state = new_state;
    task.result_file = result_file;
    Ok(task)
}

/// The outcome of reading a task from a store: the task when one was found,
/// `TaskNotFound` when the store holds none under the identifier, and
/// `TaskUpdateFailure` when the store could not say.
pub fn read_reply(read: Result<Option<Task>, ()>) -> (r: Result<Task, TaskError>)
    ensures
        match read {
            Ok(Some(t)) => r is Ok && r->Ok_0@ == t@,
            Ok(None) => r == Err::<Task, TaskError>(TaskError::TaskNotFound),
            Err(_) => r == Err::<Task, TaskError>(TaskError::TaskUpdateFailure),
        },
{
    match read {
        Ok(Some(task)) => Ok(task),
        Ok(None) => Err(TaskError::TaskNotFound),
        Err(()) => Err(TaskError::TaskUpdateFailure),
    }
}

/// Decides a submission on what the store holds under the new task's
/// identifier: the task to write when nothing is there, and
/// `TaskCreationFailure` when a record is there or the store could not say,
/// so that an identifier is never reused.
pub fn plan_submission(existing: Result<Option<Task>, ()>, task: Task) -> (r: Result<
    Task,
    TaskError,
>)
    ensures
        existing == Ok::<Option<Task>, ()>(None) ==> r is Ok && r->Ok_0@ == task@,
        existing != Ok::<Option<Task>, ()>(None) ==> r == Err::<Task, TaskError>(
            TaskError::TaskCreationFailure,
        ),
{
    match existing {
        Ok(None) => Ok(task),
        _ => Err(TaskError::TaskCreationFailure),
    }
}

/// The reply to a write: the identifier when the store took the record,
/// else `failure`.
pub fn write_reply(global_task_id: String, stored: bool, failure: TaskError) -> (r: Result<
    TaskIdentifier,
    TaskError,
>)
    ensures
        stored ==> r is Ok && r->Ok_0.global_task_id@ == global_task_id@,
        !stored ==> r == Err::<TaskIdentifier, TaskError>(failure),
{
    if stored {
        Ok(TaskIdentifier { global_task_id })
    } else {
        Err(failure)
    }
}

/// The stored task named by `task_identifier`, or `TaskNotFound`.
pub fn get_task(task_identifier: &TaskIdentifier, repo: &TaskRepository) -> (r: Result<
    Task,
    TaskError,
>)
    requires
        repo.well_formed(),
    ensures
        match r {
            Ok(t) => repo@.contains_key(task_identifier.global_task_id@) && t@
                == repo@[task_identifier.global_task_id@],
            Err(e) => e == TaskError::TaskNotFound && !repo@.contains_key(
                task_identifier.global_task_id@,
            ),
        },
{
    match repo.get_task(&task_identifier.global_task_id) {
        Some(task) => Ok(task),
        None => Err(TaskError::TaskNotFound),
    }
}

/// Every stored record has a result exactly when it has completed.
pub open spec fn all_well_formed(m: Map<Seq<char>, TaskRecord>) -> bool {
    forall|k: Seq<char>| #[trigger] m.contains_key(k) ==> m[k].well_formed()
}

/// What a transition request does to a store: on success the changed
/// record replaces the stored one; on failure the store is left as it was.
pub open spec fn transition_effect(
    before: Map<Seq<char>, TaskRecord>,
    after: Map<Seq<char>, TaskRecord>,
    id: Seq<char>,
    new_state: TaskState,
    result_file: Option<Seq<char>>,
    r: Result<TaskIdentifier, TaskError>,
) -> bool {
    if !before.contains_key(id) {
        r == Err::<TaskIdentifier, TaskError>(TaskError::TaskNotFound) && after == before
    } else if !transition_allowed(before[id].state, new_state) {
        r == Err::<TaskIdentifier, TaskError>(TaskError::BadTaskRequest) && after == before
    } else {
        r is Ok && r->Ok_0.global_task_id@ == id && after == before.insert(
            id,
            transitioned(before[id], new_state, result_file),
        )
    }
}

/// Loads the task, checks the move against the lifecycle, and writes the
/// changed record back.
pub fn state_transition(
    repo: &mut TaskRepository,
    global_task_id: String,
    new_state: TaskState,
    result_file: Option<String>,
) -> (r: Result<TaskIdentifier, TaskError>)
    requires
        old(repo).well_formed(),
    ensures
        final(repo).well_formed(),
        transition_effect(
            old(repo)@,
            final(repo)@,
            global_task_id@,
            new_state,
            opt_view(result_file),
            r,
        ),
{
    let loaded = repo.get_task(&global_task_id);
    let task = match plan_transition(loaded, new_state, result_file) {
        Ok(task) => task,
        Err(e) => return Err(e),
    };
    let task_identifier = task.get_global_id();
    repo.put_task(task);
    write_reply(task_identifier, true, TaskError::TaskUpdateFailure)
}

/// Moves the named task from `Queued` to `InProgress`.
pub fn start_task(repo: &mut TaskRepository, task_identifier: TaskIdentifier) -> (r: Result<
    TaskIdentifier,
    TaskError,
>)
    requires
        old(repo).well_formed(),
    ensures
        final(repo).well_formed(),
        transition_effect(
            old(repo)@,
            final(repo)@,
            task_identifier.global_task_id@,
            TaskState::InProgress,
            None,
            r,
        ),
        all_well_formed(old(repo)@) ==> all_well_formed(final(repo)@),
{
    state_transition(repo, task_identifier.global_task_id, TaskState::InProgress, None)
}

/// Moves the named task from `InProgress` to `Completed`, recording its
/// result reference.
pub fn complete_task(
    repo: &mut TaskRepository,
    task_identifier: TaskIdentifier,
    completion_request: TaskCompletionRequest,
) -> (r: Result<TaskIdentifier, TaskError>)
    requires
        old(repo).well_formed(),
    ensures
        final(repo).well_formed(),
        transition_effect(
            old(repo)@,
            final(repo)@,
            task_identifier.global_task_id@,
            TaskState::Completed,
            Some(completion_request.result_file@),
            r,
        ),
        all_well_formed(old(repo)@) ==> all_well_formed(final(repo)@),
{
    state_transition(
        repo,
        task_identifier.global_task_id,
        TaskState::Completed,
        Some(completion_request.result_file),
    )
}

/// The record a submission creates under `id`.
pub open spec fn submitted(id: Seq<char>, request: SubmitTaskRequest) -> TaskRecord {
    TaskRecord {
        global_task_id: id,
        user_uuid: request.user_uuid@,
        task_type: request.task_type@,
        source_file: request.source_file@,
        result_file: None,
        state: TaskState::Queued,
    }
}

/// Creates a queued task under `global_task_id`. An identifier already in
/// the store is never reused: the request then fails with
/// `TaskCreationFailure` and the store is left as it was.
pub fn submit_task_with_id(
    repo: &mut TaskRepository,
    global_task_id: String,
    request: SubmitTaskRequest,
) -> (r: Result<TaskIdentifier, TaskError>)
    requires
        old(repo).well_formed(),
    ensures
        final(repo).well_formed(),
        old(repo)@.contains_key(global_task_id@) ==> r == Err::<TaskIdentifier, TaskError>(
            TaskError::TaskCreationFailure,
        ) && final(repo)@ == old(repo)@,
        !old(repo)@.contains_key(global_task_id@) ==> r is Ok && r->Ok_0.global_task_id@
            == global_task_id@ && final(repo)@ == old(repo)@.insert(
            global_task_id@,
            submitted(global_task_id@, request),
        ),
        all_well_formed(old(repo)@) ==> all_well_formed(final(repo)@),
{
    let existing = Ok(repo.get_task(&global_task_id));
    let task = Task::with_id(global_task_id, request.user_uuid, request.task_type, request.source_file);
    match plan_submission(existing, task) {
        Ok(task) => {
            let task_identifier = task.get_global_id();
            repo.put_task(task);
            write_reply(task_identifier, true, TaskError::TaskCreationFailure)
        },
        Err(e) => Err(e),
    }
}

/// Creates a queued task under a fresh random identifier of 36 characters.
/// On an empty store it always succeeds. Should the identifier already be in
/// the store, nothing is written and the request fails with
/// `TaskCreationFailure`.
pub fn submit_task(repo: &mut TaskRepository, request: SubmitTaskRequest) -> (r: Result<
    TaskIdentifier,
    TaskError,
>)
    requires
        old(repo).well_formed(),
    ensures
        final(repo).well_formed(),
        old(repo)@ == Map::<Seq<char>, TaskRecord>::empty() ==> r is Ok,
        r is Err ==> r == Err::<TaskIdentifier, TaskError>(TaskError::TaskCreationFailure)
            && final(repo)@ == old(repo)@,
        r is Ok ==> r->Ok_0.global_task_id@.len() == 36 && !old(repo)@.contains_key(
            r->Ok_0.global_task_id@,
        ) && final(repo)@ == old(
            repo,
        )@.insert(r->Ok_0.global_task_id@, submitted(r->Ok_0.global_task_id@, request)),
        all_well_formed(old(repo)@) ==> all_well_formed(final(repo)@),
{
    let probe = Task::new(request.user_uuid, request.task_type, request.source_file);
    let id = probe.get_global_id();
    let request = SubmitTaskRequest {
        user_uuid: probe.user_uuid,
        task_type: probe.task_type,
        source_file: probe.source_file,
    };
    submit_task_with_id(repo, id, request)
}

} // verus!
