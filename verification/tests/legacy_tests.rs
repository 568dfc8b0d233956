use rust_tokio_example::thread_control::thread_worker::WorkerStart;
use rust_tokio_example::thread_control::thread_worker_repository_impl::ThreadWorkerRepositoryImpl;
use rust_tokio_example::thread_manage_legacy::worker_error::WorkerError;
use rust_tokio_example::thread_manage_legacy::worker_service_impl::WorkerServiceImpl;

fn service() -> WorkerServiceImpl<u32> {
    WorkerServiceImpl::new(Some(ThreadWorkerRepositoryImpl::new()))
}

#[test]
fn legacy_service_create_and_get_thread() {
    let mut instance = service();
    instance.create_thread("Alice", None);
    let retrieved_worker = instance.get_thread("Alice");
    assert_eq!(retrieved_worker.map(|w| w.name().to_owned()), Some("Alice".to_owned()));
}

#[test]
fn legacy_service_get_nonexistent_thread() {
    let instance = service();
    assert!(instance.get_thread("Nonexistent") == None);
}

#[test]
fn legacy_service_start_keeps_function() {
    let mut instance = service();
    instance.create_thread("Alice", Some(11));
    assert!(matches!(instance.start_worker("Alice"), WorkerStart::Launch(11)));
    assert!(matches!(instance.start_worker("Alice"), WorkerStart::Launch(11)));
    instance.create_thread("Bob", None);
    assert!(matches!(instance.start_worker("Bob"), WorkerStart::NothingToRun));
    assert!(matches!(instance.start_worker("Carol"), WorkerStart::NotFound));
}

#[test]
fn legacy_service_without_repository() {
    let instance: WorkerServiceImpl<u32> = WorkerServiceImpl::new(None);
    assert!(!instance.has_repository());
    assert!(instance.get_thread("Alice") == None);
    assert!(service().has_repository());
}

#[test]
fn worker_error_text() {
    assert_eq!(WorkerError::SomeError.to_string(), "WorkerError: SomeError");
    assert_eq!(WorkerError::AnotherError.to_string(), "WorkerError: AnotherError");
    assert_eq!(WorkerError::ThreadWriteError.to_string(), "WorkerError: ThreadWriteError");
}
