//! Tests of the task lifecycle: the worker-side steps, outcome
//! classification, payload decoding and the identifier scheme.

use base64::Engine;
use tasksolver::execution::{classify_execution, decode_binary_payload};
use tasksolver::handlers::{create_task, get_status, get_task_count};
use tasksolver::models::{CreateTaskRequest, GetStatusRequest, TaskStatusEnum, TaskType};
use tasksolver::server::TaskStatus;
use tasksolver::worker_pool::{WorkerPool, complete_task};

/// A submitted script task whose subprocess exits with code 0 ends SUCCESS,
/// with stdout kept verbatim and no stderr. The subprocess itself runs in
/// the embedding application; its captured output is handed in here.
#[test]
fn test_script_task_success() {
    let mut worker_pool = WorkerPool::new(1);
    let mut task_status = TaskStatus::new();

    let request = CreateTaskRequest::new(
        TaskType::Python,
        "print('Hello, world!')".to_string(),
        "".to_string(),
    );
    let response = create_task(request, &mut worker_pool, &mut task_status);

    let task_info = worker_pool.take_task().unwrap();
    assert_eq!(task_info.id, response.id);

    task_status.start_running_task(&task_info.id);
    complete_task(
        &mut task_status,
        &task_info.id,
        "Hello, world!\n".to_string(),
        "".to_string(),
        true,
    );

    let record = task_status.get_status_by_id(&task_info.id);
    assert_eq!(record.status, TaskStatusEnum::SUCCESS);
    assert_eq!(record.result.stdout, "Hello, world!\n");
    assert_eq!(record.result.stderr, None);
    assert!(record.meta.started_at.is_some());
    assert!(record.meta.finished_at.is_some());
}

/// A submitted binary task whose run fails ends ERROR with the captured
/// stderr kept; stdout may be empty.
#[test]
fn test_binary_task_error() {
    let mut worker_pool = WorkerPool::new(1);
    let mut task_status = TaskStatus::new();

    let encoded = base64::prelude::BASE64_STANDARD.encode("bimbimbambam");
    let request = CreateTaskRequest::new(TaskType::Bin, encoded, "".to_string());
    let response = create_task(request, &mut worker_pool, &mut task_status);

    let task_info = worker_pool.take_task().unwrap();
    let decoded = decode_binary_payload(&task_info.task_request.file).unwrap();
    assert_eq!(decoded, b"bimbimbambam");

    task_status.start_running_task(&task_info.id);
    complete_task(
        &mut task_status,
        &task_info.id,
        "".to_string(),
        "bimbimbambam: command not found\n".to_string(),
        false,
    );

    let record = get_status(GetStatusRequest { id: response.id }, &task_status);
    assert_eq!(record.status, TaskStatusEnum::ERROR);
    assert_eq!(
        record.result.stderr,
        Some("bimbimbambam: command not found\n".to_string())
    );
    assert_eq!(record.result.stdout, "");
}

/// A task is visible as RUNNING as soon as a worker starts it, with a start
/// timestamp and still no finish timestamp.
#[test]
fn test_running_visible_after_start() {
    let mut worker_pool = WorkerPool::new(1);
    let mut task_status = TaskStatus::new();

    let request = CreateTaskRequest::new(TaskType::Python, "1".to_string(), "".to_string());
    let response = create_task(request, &mut worker_pool, &mut task_status);

    let before = task_status.get_status_by_id(&response.id);
    assert_eq!(before.status, TaskStatusEnum::WAIT);
    assert_eq!(before.meta.started_at, None);
    assert_eq!(before.meta.finished_at, None);

    let task_info = worker_pool.take_task().unwrap();
    task_status.start_running_task(&task_info.id);

    let running = task_status.get_status_by_id(&response.id);
    assert_eq!(running.status, TaskStatusEnum::RUNNING);
    assert!(running.meta.started_at.is_some());
    assert_eq!(running.meta.finished_at, None);
}

/// Repeated queries for a terminal task answer byte-identical records.
#[test]
fn test_terminal_status_idempotent() {
    let mut worker_pool = WorkerPool::new(1);
    let mut task_status = TaskStatus::new();

    let request = CreateTaskRequest::new(TaskType::Python, "1".to_string(), "".to_string());
    let response = create_task(request, &mut worker_pool, &mut task_status);

    let task_info = worker_pool.take_task().unwrap();
    task_status.start_running_task(&task_info.id);
    complete_task(&mut task_status, &task_info.id, "1\n".to_string(), "".to_string(), true);

    let first = task_status.get_status_by_id(&response.id);
    let second = task_status.get_status_by_id(&response.id);
    let third = get_status(GetStatusRequest { id: response.id }, &task_status);
    assert_eq!(first, second);
    assert_eq!(second, third);
}

/// Descriptors are taken in submission order: first in, first out.
#[test]
fn test_fifo_admission_order() {
    let mut worker_pool = WorkerPool::new(2);
    let mut task_status = TaskStatus::new();

    let first = create_task(
        CreateTaskRequest::new(TaskType::Python, "1".to_string(), "".to_string()),
        &mut worker_pool,
        &mut task_status,
    );
    let second = create_task(
        CreateTaskRequest::new(TaskType::Python, "2".to_string(), "".to_string()),
        &mut worker_pool,
        &mut task_status,
    );
    assert_ne!(first.id, second.id);

    assert_eq!(worker_pool.take_task().unwrap().id, first.id);
    assert_eq!(worker_pool.take_task().unwrap().id, second.id);
    assert!(worker_pool.take_task().is_none());
}

/// The queue depth counts exactly the descriptors not yet taken.
#[test]
fn test_pending_count_after_take() {
    let mut worker_pool = WorkerPool::new(1);
    let mut task_status = TaskStatus::new();

    for code in ["1", "2"] {
        let request = CreateTaskRequest::new(TaskType::Python, code.to_string(), "".to_string());
        let _ = create_task(request, &mut worker_pool, &mut task_status);
    }
    assert_eq!(get_task_count(&worker_pool).tasks, 2);

    let _ = worker_pool.take_task().unwrap();
    assert_eq!(get_task_count(&worker_pool).tasks, 1);
}

/// Task identifiers are 36-character hyphenated UUID strings.
#[test]
fn test_task_id_format() {
    let mut task_status = TaskStatus::new();
    let id = task_status.add_new_task();
    assert_eq!(id.len(), 36);
    assert_eq!(id.chars().filter(|c| *c == '-').count(), 4);
}

/// Exit code 0 classifies as SUCCESS with no stderr; stderr text alone is
/// not failure.
#[test]
fn test_classify_success() {
    let (stdout, stderr, outcome) =
        classify_execution("out\n".to_string(), "noise on stderr\n".to_string(), true);
    assert_eq!(stdout, "out\n");
    assert_eq!(stderr, None);
    assert_eq!(outcome, TaskStatusEnum::SUCCESS);
}

/// A non-zero exit classifies as ERROR and keeps the captured stderr.
#[test]
fn test_classify_error() {
    let (stdout, stderr, outcome) =
        classify_execution("partial\n".to_string(), "boom\n".to_string(), false);
    assert_eq!(stdout, "partial\n");
    assert_eq!(stderr, Some("boom\n".to_string()));
    assert_eq!(outcome, TaskStatusEnum::ERROR);
}

/// Valid standard base64 decodes to the exact original bytes.
#[test]
fn test_decode_binary_payload() {
    let decoded = decode_binary_payload("ZWNobyBIZWxsbywgd29ybGQh").unwrap();
    assert_eq!(decoded, b"echo Hello, world!");
}

/// Text that is not valid base64 is answered with a message, not a panic.
#[test]
fn test_decode_binary_payload_invalid() {
    let err = decode_binary_payload("not base64!!!").unwrap_err();
    assert!(!err.is_empty());
}
