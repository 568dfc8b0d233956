use rust_tokio_example::name_table::NameTable;
use rust_tokio_example::thread_manage::worker::Worker;
use rust_tokio_example::thread_manage::worker_repository_impl::WorkerRepositoryImpl;
use rust_tokio_example::thread_manage::worker_service_impl::WorkerServiceImpl;

#[test]
fn worker_test_worker_creation() {
    let worker = Worker::new("John Doe");

    assert_eq!(worker.name(), "John Doe");
}

#[test]
fn worker_test_worker_as_ref() {
    let worker = Worker::new("John Doe");
    let name_ref: &str = worker.as_ref();

    assert_eq!(name_ref, "John Doe");
}

#[test]
fn workers_are_equal_by_name() {
    assert_eq!(Worker::new("Alice"), Worker::new("Alice"));
    assert_ne!(Worker::new("Alice"), Worker::new("Bob"));
    let worker = Worker::new("Carol");
    assert_eq!(worker.clone(), worker);
}

#[test]
fn worker_repository_saves_by_thread_id() {
    let mut repository = WorkerRepositoryImpl::empty();
    assert!(repository.get_thread(1).is_none());
    repository.save_thread(1, "Alice");
    repository.save_thread(2, "Bob");
    assert_eq!(repository.get_thread(1).map(|w| w.name().to_owned()), Some("Alice".to_owned()));
    assert_eq!(repository.get_thread(2).map(|w| w.name().to_owned()), Some("Bob".to_owned()));
    repository.save_thread(1, "Carol");
    assert_eq!(repository.get_thread(1).map(|w| w.name().to_owned()), Some("Carol".to_owned()));
    assert_eq!(repository.get_thread(3), None);
}

fn service() -> WorkerServiceImpl {
    WorkerServiceImpl::new(Some(NameTable::new()))
}

// The shared instance itself is the program's; this checks what one instance does.
#[test]
fn worker_service_impl_test_singleton_behavior() {
    let mut instance = service();

    instance.create_thread("Alice");

    let retrieved_worker = instance.get_thread("Alice");

    assert_eq!(retrieved_worker.map(|w| w.name().to_owned()), Some("Alice".to_owned()));
}

#[test]
fn worker_service_impl_test_create_and_get_thread() {
    let mut instance = service();

    instance.create_thread("Bob");

    let retrieved_worker = instance.get_thread("Bob");

    assert_eq!(retrieved_worker.map(|w| w.name().to_owned()), Some("Bob".to_owned()));
}

#[test]
fn worker_service_impl_test_get_nonexistent_thread() {
    let instance = service();

    let retrieved_worker = instance.get_thread("Nonexistent");

    assert_eq!(retrieved_worker, None);
}

#[test]
fn worker_service_without_repository_stores_nothing() {
    let mut instance = WorkerServiceImpl::new(None);
    instance.create_thread("Alice");
    assert_eq!(instance.get_thread("Alice"), None);
}
