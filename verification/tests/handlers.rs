//! Tests of the dispatch facade: submission, status queries and queue depth.

use base64::Engine;
use tasksolver::handlers::{create_task, get_status, get_task_count};
use tasksolver::models::{CreateTaskRequest, GetStatusRequest, TaskStatusEnum, TaskType};
use tasksolver::server::TaskStatus;
use tasksolver::worker_pool::WorkerPool;

#[test]
fn test_create_python_task() {
    let workers_count = 4;

    let mut worker_pool = WorkerPool::new(workers_count);
    let mut task_status = TaskStatus::new();

    let python_code = "print('Hello, world!')".to_string();
    let arguments = "".to_string();

    let create_task_request = CreateTaskRequest::new(TaskType::Python, python_code, arguments);

    let create_task_response = create_task(create_task_request, &mut worker_pool, &mut task_status);
    let id = create_task_response.id;
    let status = task_status.get_status_by_id(&id);

    assert_eq!(status.status == TaskStatusEnum::NOTEXIST, false);
    assert_eq!(status.status, TaskStatusEnum::WAIT);
}

#[test]
fn test_create_binary_task() {
    let workers_count = 4;

    let mut worker_pool = WorkerPool::new(workers_count);
    let mut task_status = TaskStatus::new();

    let base64_encoded_file = base64::prelude::BASE64_STANDARD.encode("echo Hello, world!");
    let arguments = "".to_string();

    let create_task_request = CreateTaskRequest::new(TaskType::Bin, base64_encoded_file, arguments);

    let create_task_response = create_task(create_task_request, &mut worker_pool, &mut task_status);
    let id = create_task_response.id;
    let status = task_status.get_status_by_id(&id);

    assert_eq!(status.status == TaskStatusEnum::NOTEXIST, false);
    assert_eq!(status.status, TaskStatusEnum::WAIT);
}

#[test]
fn test_get_status_of_python_task() {
    let workers_count = 4;

    let mut worker_pool = WorkerPool::new(workers_count);
    let mut task_status = TaskStatus::new();

    let python_code = "print('Hello, world!')".to_string();
    let arguments = "".to_string();

    let create_task_request = CreateTaskRequest::new(TaskType::Python, python_code, arguments);

    let create_task_response = create_task(create_task_request, &mut worker_pool, &mut task_status);
    let id = create_task_response.id;
    let status = task_status.get_status_by_id(&id);

    assert_eq!(status.status == TaskStatusEnum::NOTEXIST, false);

    let get_status_request = GetStatusRequest { id };
    let result = get_status(get_status_request, &task_status);

    assert_eq!(result.status, TaskStatusEnum::WAIT);
}

#[test]
fn test_get_status_of_not_exist_task() {
    let task_status = TaskStatus::new();
    let id = "random-UUID".to_string();

    let get_status_request = GetStatusRequest { id };
    let result = get_status(get_status_request, &task_status);

    assert_eq!(result.status, TaskStatusEnum::NOTEXIST);
}

#[test]
fn test_get_queue_count_of_one_task() {
    let workers_count = 4;

    let mut worker_pool = WorkerPool::new(workers_count);
    let mut task_status = TaskStatus::new();

    let python_code = "print('Hello, world!')".to_string();
    let arguments = "".to_string();

    let create_task_request = CreateTaskRequest::new(TaskType::Python, python_code, arguments);

    let create_task_response = create_task(create_task_request, &mut worker_pool, &mut task_status);
    let id = create_task_response.id;
    let status = task_status.get_status_by_id(&id);
    assert_eq!(status.status == TaskStatusEnum::NOTEXIST, false);

    let result = get_task_count(&worker_pool);
    assert_eq!(result.tasks, 1);
}

#[test]
fn test_get_queue_count_with_no_task() {
    let workers_count = 4;

    let worker_pool = WorkerPool::new(workers_count);

    let result = get_task_count(&worker_pool);
    assert_eq!(result.tasks, 0);
}

#[test]
fn test_get_queue_count_with_many_tasks() {
    let workers_count = 4;

    let mut worker_pool = WorkerPool::new(workers_count);
    let mut task_status = TaskStatus::new();

    let python_code = "print('Hello, world!')".to_string();
    let arguments = "".to_string();
    let create_task_request = CreateTaskRequest::new(TaskType::Python, python_code, arguments);
    let _ = create_task(create_task_request, &mut worker_pool, &mut task_status);

    let base64_encoded_file = base64::prelude::BASE64_STANDARD.encode("echo Hello, world!");
    let arguments = "".to_string();
    let create_task_request = CreateTaskRequest::new(TaskType::Bin, base64_encoded_file, arguments);
    let _ = create_task(create_task_request, &mut worker_pool, &mut task_status);

    let base64_encoded_file = base64::prelude::BASE64_STANDARD.encode("bim bim");
    let arguments = "".to_string();
    let create_task_request = CreateTaskRequest::new(TaskType::Bin, base64_encoded_file, arguments);
    let _ = create_task(create_task_request, &mut worker_pool, &mut task_status);

    let result = get_task_count(&worker_pool);
    assert_eq!(result.tasks, 3);
}
