use task_tracker::api::{
    complete_task, get_task, plan_submission, plan_transition, read_reply, start_task, state_transition, submit_task,
    submit_task_with_id, write_reply, SubmitTaskRequest, TaskCompletionRequest, TaskError,
    TaskIdentifier,
};
use task_tracker::repository::TaskRepository;
use task_tracker::task::{can_transition_state, Task, TaskState};

fn ident(id: &str) -> TaskIdentifier {
    TaskIdentifier { global_task_id: id.to_string() }
}

fn request(u: &str, t: &str, s: &str) -> SubmitTaskRequest {
    SubmitTaskRequest { user_uuid: u.to_string(), task_type: t.to_string(), source_file: s.to_string() }
}

#[test]
fn transition_table_is_exact() {
    let all = [TaskState::Queued, TaskState::InProgress, TaskState::Completed];
    for c in all {
        for r in all {
            let expected = (c == TaskState::Queued && r == TaskState::InProgress)
                || (c == TaskState::InProgress && r == TaskState::Completed);
            assert_eq!(can_transition_state(c, r), expected);
        }
        assert!(!can_transition_state(c, c));
    }
}

#[test]
fn task_method_consults_the_table() {
    let t = Task::with_id("id".to_string(), "u".to_string(), "t".to_string(), "s".to_string());
    assert!(t.can_transition_state(&TaskState::InProgress));
    assert!(!t.can_transition_state(&TaskState::Completed));
    assert_eq!(t.get_global_id(), "id");
}

#[test]
fn new_task_is_queued_without_result() {
    let a = Task::new("u".to_string(), "t".to_string(), "s".to_string());
    let b = Task::new("u".to_string(), "t".to_string(), "s".to_string());
    assert_eq!(a.state, TaskState::Queued);
    assert!(a.result_file.is_none());
    assert_eq!(a.user_uuid, "u");
    assert_eq!(a.task_type, "t");
    assert_eq!(a.source_file, "s");
    assert_eq!(a.global_task_id.chars().count(), 36);
    assert_ne!(a.global_task_id, b.global_task_id);
}

#[test]
fn state_text_round_trips() {
    for s in [TaskState::Queued, TaskState::InProgress, TaskState::Completed] {
        assert_eq!(TaskState::from_text(&s.to_text()), Some(s));
    }
    assert_eq!(TaskState::InProgress.to_text(), "InProgress");
    assert_eq!(TaskState::from_text(&"Done".to_string()), None);
    assert_eq!(TaskState::from_text(&"queued".to_string()), None);
}

#[test]
fn put_then_get_gives_the_record() {
    let mut repo = TaskRepository::new();
    let mut t = Task::with_id("k1".to_string(), "u".to_string(), "render".to_string(), "in".to_string());
    t.state = TaskState::Completed;
    t.result_file = Some("out".to_string());
    repo.put_task(t);
    let got = repo.get_task(&"k1".to_string()).unwrap();
    assert_eq!(got.global_task_id, "k1");
    assert_eq!(got.user_uuid, "u");
    assert_eq!(got.task_type, "render");
    assert_eq!(got.source_file, "in");
    assert_eq!(got.result_file, Some("out".to_string()));
    assert_eq!(got.state, TaskState::Completed);
}

#[test]
fn put_overwrites_whole_record() {
    let mut repo = TaskRepository::new();
    repo.put_task(Task::with_id("k".to_string(), "a".to_string(), "b".to_string(), "c".to_string()));
    repo.put_task(Task::with_id("k".to_string(), "x".to_string(), "y".to_string(), "z".to_string()));
    let got = repo.get_task(&"k".to_string()).unwrap();
    assert_eq!(got.user_uuid, "x");
    assert_eq!(got.source_file, "z");
}

#[test]
fn get_on_unwritten_id_is_absent() {
    let mut repo = TaskRepository::new();
    assert!(repo.get_task(&"nope".to_string()).is_none());
    repo.put_task(Task::with_id("k".to_string(), "a".to_string(), "b".to_string(), "c".to_string()));
    assert!(repo.get_task(&"nope".to_string()).is_none());
}

#[test]
fn submit_creates_queued_task() {
    let mut repo = TaskRepository::new();
    let id = submit_task(&mut repo, request("u1", "render", "s3://in.mp4")).unwrap();
    let t = get_task(&id, &repo).unwrap();
    assert_eq!(t.global_task_id, id.global_task_id);
    assert_eq!(t.user_uuid, "u1");
    assert_eq!(t.task_type, "render");
    assert_eq!(t.source_file, "s3://in.mp4");
    assert_eq!(t.state, TaskState::Queued);
    assert!(t.result_file.is_none());
    assert_eq!(id.global_task_id.chars().count(), 36);
    let other = submit_task(&mut repo, request("u1", "render", "s3://in.mp4")).unwrap();
    assert_ne!(other.global_task_id, id.global_task_id);
}

#[test]
fn submit_never_reuses_an_identifier() {
    let mut repo = TaskRepository::new();
    submit_task_with_id(&mut repo, "k".to_string(), request("a", "b", "c")).unwrap();
    let again = submit_task_with_id(&mut repo, "k".to_string(), request("x", "y", "z"));
    assert_eq!(again.err(), Some(TaskError::TaskCreationFailure));
    assert_eq!(get_task(&ident("k"), &repo).unwrap().user_uuid, "a");
}

#[test]
fn start_then_start_again_is_rejected() {
    let mut repo = TaskRepository::new();
    let id = submit_task_with_id(&mut repo, "t1".to_string(), request("u1", "render", "s3://in.mp4")).unwrap();
    assert_eq!(id.global_task_id, "t1");
    let started = start_task(&mut repo, ident("t1")).unwrap();
    assert_eq!(started.global_task_id, "t1");
    assert_eq!(get_task(&ident("t1"), &repo).unwrap().state, TaskState::InProgress);
    let again = start_task(&mut repo, ident("t1"));
    assert_eq!(again.err(), Some(TaskError::BadTaskRequest));
    assert_eq!(get_task(&ident("t1"), &repo).unwrap().state, TaskState::InProgress);
}

#[test]
fn complete_records_result() {
    let mut repo = TaskRepository::new();
    submit_task_with_id(&mut repo, "t1".to_string(), request("u1", "render", "s3://in.mp4")).unwrap();
    start_task(&mut repo, ident("t1")).unwrap();
    let done = complete_task(
        &mut repo,
        ident("t1"),
        TaskCompletionRequest { result_file: "s3://out.mp4".to_string() },
    )
    .unwrap();
    assert_eq!(done.global_task_id, "t1");
    let t = get_task(&ident("t1"), &repo).unwrap();
    assert_eq!(t.state, TaskState::Completed);
    assert_eq!(t.result_file, Some("s3://out.mp4".to_string()));
    assert_eq!(t.source_file, "s3://in.mp4");
    let again = start_task(&mut repo, ident("t1"));
    assert_eq!(again.err(), Some(TaskError::BadTaskRequest));
}

#[test]
fn complete_while_queued_is_rejected() {
    let mut repo = TaskRepository::new();
    submit_task_with_id(&mut repo, "t1".to_string(), request("u1", "render", "s3://in.mp4")).unwrap();
    let r = complete_task(
        &mut repo,
        ident("t1"),
        TaskCompletionRequest { result_file: "s3://out.mp4".to_string() },
    );
    assert_eq!(r.err(), Some(TaskError::BadTaskRequest));
    let t = get_task(&ident("t1"), &repo).unwrap();
    assert_eq!(t.state, TaskState::Queued);
    assert!(t.result_file.is_none());
}

#[test]
fn unknown_identifier_is_not_found() {
    let mut repo = TaskRepository::new();
    assert_eq!(get_task(&ident("ghost"), &repo).err(), Some(TaskError::TaskNotFound));
    assert_eq!(start_task(&mut repo, ident("ghost")).err(), Some(TaskError::TaskNotFound));
    let r = complete_task(&mut repo, ident("ghost"), TaskCompletionRequest { result_file: "o".to_string() });
    assert_eq!(r.err(), Some(TaskError::TaskNotFound));
    let r = state_transition(&mut repo, "ghost".to_string(), TaskState::InProgress, None);
    assert_eq!(r.err(), Some(TaskError::TaskNotFound));
    assert!(repo.get_task(&"ghost".to_string()).is_none());
}

#[test]
fn plan_transition_decides() {
    assert_eq!(plan_transition(None, TaskState::InProgress, None).err(), Some(TaskError::TaskNotFound));
    let t = Task::with_id("k".to_string(), "u".to_string(), "t".to_string(), "s".to_string());
    let planned = plan_transition(Some(t), TaskState::InProgress, None).unwrap();
    assert_eq!(planned.state, TaskState::InProgress);
    assert_eq!(planned.global_task_id, "k");
    let r = plan_transition(Some(planned), TaskState::Queued, None);
    assert_eq!(r.err(), Some(TaskError::BadTaskRequest));
}

#[test]
fn write_reply_reports_failure() {
    assert_eq!(write_reply("k".to_string(), true, TaskError::TaskUpdateFailure).unwrap().global_task_id, "k");
    assert_eq!(
        write_reply("k".to_string(), false, TaskError::TaskUpdateFailure).err(),
        Some(TaskError::TaskUpdateFailure)
    );
    assert_eq!(
        write_reply("k".to_string(), false, TaskError::TaskCreationFailure).err(),
        Some(TaskError::TaskCreationFailure)
    );
}

#[test]
fn error_status_codes() {
    assert_eq!(TaskError::TaskNotFound.status_code(), 404);
    assert_eq!(TaskError::TaskUpdateFailure.status_code(), 424);
    assert_eq!(TaskError::TaskCreationFailure.status_code(), 424);
    assert_eq!(TaskError::BadTaskRequest.status_code(), 400);
}

#[test]
fn read_reply_keeps_outcomes_apart() {
    let t = Task::with_id("k".to_string(), "u".to_string(), "t".to_string(), "s".to_string());
    assert_eq!(read_reply(Ok(Some(t))).unwrap().global_task_id, "k");
    assert_eq!(read_reply(Ok(None)).err(), Some(TaskError::TaskNotFound));
    assert_eq!(read_reply(Err(())).err(), Some(TaskError::TaskUpdateFailure));
}

#[test]
fn plan_submission_refuses_taken_or_unknown() {
    let fresh = || Task::with_id("k".to_string(), "u".to_string(), "t".to_string(), "s".to_string());
    assert_eq!(plan_submission(Ok(None), fresh()).unwrap().global_task_id, "k");
    assert_eq!(plan_submission(Ok(Some(fresh())), fresh()).err(), Some(TaskError::TaskCreationFailure));
    assert_eq!(plan_submission(Err(()), fresh()).err(), Some(TaskError::TaskCreationFailure));
}
