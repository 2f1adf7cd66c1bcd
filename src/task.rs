use vstd::prelude::*;
use vstd::string::StrSliceExecFns;

verus! {

/// The lifecycle stage of a task.
#[derive(PartialEq, Eq, Structural, Clone, Copy, Debug)]
pub enum TaskState {
    Queued,
    InProgress,
    Completed,
}

/// The legal moves of the lifecycle: `Queued` to `InProgress`, and
/// `InProgress` to `Completed`; nothing else.
pub open spec fn transition_allowed(current: TaskState, requested: TaskState) -> bool {
    (current == TaskState::Queued && requested == TaskState::InProgress) || (current
        == TaskState::InProgress && requested == TaskState::Completed)
}

/// Whether a task in state `current` may move to state `requested`.
pub fn can_transition_state(current: TaskState, requested: TaskState) -> (r: bool)
    ensures
        r == transition_allowed(current, requested),
{
    match (current, requested) {
        (TaskState::Queued, TaskState::InProgress) => true,
        (TaskState::InProgress, TaskState::Completed) => true,
        _ => false,
    }
}

/// The lifecycle admits exactly two moves, `Queued` to `InProgress` and
/// `InProgress` to `Completed`; no state may move to itself.
pub proof fn lemma_transition_table(current: TaskState, requested: TaskState)
    ensures
        transition_allowed(TaskState::Queued, TaskState::InProgress),
        transition_allowed(TaskState::InProgress, TaskState::Completed),
        !transition_allowed(current, current),
        transition_allowed(current, requested) <==> ((current, requested) == (
            TaskState::Queued,
            TaskState::InProgress,
        ) || (current, requested) == (TaskState::InProgress, TaskState::Completed)),
{
}

/// The stable text under which a state is stored.
pub open spec fn state_text(s: TaskState) -> Seq<char> {
    match s {
        TaskState::Queued => "Queued"@,
        TaskState::InProgress => "InProgress"@,
        TaskState::Completed => "Completed"@,
    }
}

/// The state whose stored text is `t`, if any.
pub open spec fn state_from_text(t: Seq<char>) -> Option<TaskState> {
    if t == "Queued"@ {
        Some(TaskState::Queued)
    } else if t == "InProgress"@ {
        Some(TaskState::InProgress)
    } else if t == "Completed"@ {
        Some(TaskState::Completed)
    } else {
        None
    }
}

impl TaskState {
    /// The text under which this state is stored.
    pub fn to_text(&self) -> (r: String)
        ensures
            r@ == state_text(*self),
    {
        match self {
            TaskState::Queued => String::from_str("Queued"),
            TaskState::InProgress => String::from_str("InProgress"),
            TaskState::Completed => String::from_str("Completed"),
        }
    }

    /// Reads a state back from its stored text; `None` for any other text.
    pub fn from_text(t: &String) -> (r: Option<TaskState>)
        ensures
            r == state_from_text(t@),
    {
        if *t == String::from_str("Queued") {
            Some(TaskState::Queued)
        } else if *t == String::from_str("InProgress") {
            Some(TaskState::InProgress)
        } else if *t == String::from_str("Completed") {
            Some(TaskState::Completed)
        } else {
            None
        }
    }
}

/// Storing a state as text and reading it back gives the same state.
pub proof fn lemma_state_text_round_trip(s: TaskState)
    ensures
        state_from_text(state_text(s)) == Some(s),
{
    reveal_strlit("Queued");
    reveal_strlit("InProgress");
    reveal_strlit("Completed");
    assert("InProgress"@ != "Queued"@) by {
        assert("InProgress"@.len() != "Queued"@.len());
    }
    assert("Completed"@ != "Queued"@) by {
        assert("Completed"@[0] != "Queued"@[0]);
    }
    assert("Completed"@ != "InProgress"@) by {
        assert("Completed"@[0] != "InProgress"@[0]);
    }
}

/// What a task holds, as plain values.
pub struct TaskRecord {
    pub global_task_id: Seq<char>,
    pub user_uuid: Seq<char>,
    pub task_type: Seq<char>,
    pub source_file: Seq<char>,
    pub result_file: Option<Seq<char>>,
    pub state: TaskState,
}

impl TaskRecord {
    /// A result is recorded exactly when the task has completed.
    pub open spec fn well_formed(self) -> bool {
        self.result_file is Some <==> self.state == TaskState::Completed
    }
}

/// The view of an optional string.
pub open spec fn opt_view(o: Option<String>) -> Option<Seq<char>> {
    match o {
        Some(s) => Some(s@),
        None => None,
    }
}

/// A unit of work tracked through its lifecycle.
pub struct Task {
    pub global_task_id: String,
    pub user_uuid: String,
    pub task_type: String,
    pub source_file: String,
    pub result_file: Option<String>,
    pub state: TaskState,
}

impl View for Task {
    type V = TaskRecord;

    open spec fn view(&self) -> TaskRecord {
        TaskRecord {
            global_task_id: self.global_task_id@,
            user_uuid: self.user_uuid@,
            task_type: self.task_type@,
            source_file: self.source_file@,
            result_file: opt_view(self.result_file),
            state: self.state,
        }
    }
}

/// Copies an optional string.
pub fn copy_opt(o: &Option<String>) -> (r: Option<String>)
    ensures
        opt_view(r) == opt_view(*o),
{
    match o {
        Some(s) => Some(s.clone()),
        None => None,
    }
}

/// Relies on uuid::Uuid::new_v4 for a random 128-bit identifier, and on its
/// `Display` form, the hyphenated text of 36 characters. Which identifier
/// comes out is chance.
#[verifier::external_body]
fn fresh_task_id() -> (r: String)
    ensures
        r@.len() == 36,
{
    uuid::Uuid::new_v4().to_string()
}

impl Task {
    /// A queued task under the given identifier, with no result yet.
    pub fn with_id(
        global_task_id: String,
        user_uuid: String,
        task_type: String,
        source_file: String,
    ) -> (r: Task)
        ensures
            r@ == (TaskRecord {
                global_task_id: global_task_id@,
                user_uuid: user_uuid@,
                task_type: task_type@,
                source_file: source_file@,
                result_file: None,
                state: TaskState::Queued,
            }),
            r@.well_formed(),
    {
        Task { global_task_id, user_uuid, task_type, source_file, result_file: None, state: TaskState::Queued }
    }

    /// A queued task under a fresh random identifier, with no result yet.
    pub fn new(user_uuid: String, task_type: String, source_file: String) -> (r: Task)
        ensures
            r@.global_task_id.len() == 36,
            r@.user_uuid == user_uuid@,
            r@.task_type == task_type@,
            r@.source_file == source_file@,
            r@.result_file is None,
            r@.state == TaskState::Queued,
            r@.well_formed(),
    {
        Task::with_id(fresh_task_id(), user_uuid, task_type, source_file)
    }

    /// The task's identifier.
    pub fn get_global_id(&self) -> (r: String)
        ensures
            r@ == self.global_task_id@,
    {
        self.global_task_id.clone()
    }

    /// Whether `new_state` is reachable in one step from the state of `self`.
    pub fn can_transition_state(&self, new_state: &TaskState) -> (r: bool)
        ensures
            r == transition_allowed(self.state, *new_state),
    {
        can_transition_state(self.state, *new_state)
    }

    /// A duplicate of `self`, field for field.
    pub fn duplicate(&self) -> (r: Task)
        ensures
            r@ == self@,
    {
        Task {
            global_task_id: self.global_task_id.clone(),
            user_uuid: self.user_uuid.clone(),
            task_type: self.task_type.clone(),
            source_file: self.source_file.clone(),
            result_file: copy_opt(&self.result_file),
            state: self.state,
        }
    }
}

} // verus!
