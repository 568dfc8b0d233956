use rust_tokio_example::thread_control::closure::Closure;
use rust_tokio_example::thread_control::thread_worker::{ThreadWorker, WorkerStart};
use rust_tokio_example::thread_control::thread_worker_repository_impl::ThreadWorkerRepositoryImpl;
use rust_tokio_example::thread_control::thread_worker_service_impl::ThreadWorkerServiceImpl;

fn hello() {}

fn other() {}

#[test]
fn thread_worker_test_worker_creation() {
    let worker: ThreadWorker<fn()> = ThreadWorker::new("John Doe", None);
    assert_eq!(worker.name(), "John Doe");
}

#[test]
fn thread_worker_test_worker_as_ref() {
    let worker: ThreadWorker<fn()> = ThreadWorker::new("John Doe", None);
    let name_ref: &str = worker.as_ref();
    assert_eq!(name_ref, "John Doe");
}

#[test]
fn test_custom_function() {
    let worker = ThreadWorker::new("John Doe", Some(hello as fn()));
    let found_function = worker.get_will_be_execute_function();

    assert_eq!(found_function.is_some(), true);
    if let Some(function) = found_function {
        function();
    }
}

#[test]
fn test_get_will_be_execute_function() {
    let worker = ThreadWorker::new("John Doe", Some(7u32));
    assert_eq!(worker.get_will_be_execute_function(), Some(7u32));
    assert_eq!(worker.get_will_be_execute_function_ref(), Some(&7u32));
    let bare: ThreadWorker<u32> = ThreadWorker::new("John Doe", None);
    assert_eq!(bare.get_will_be_execute_function(), None);
}

#[test]
fn thread_worker_equality() {
    let a: ThreadWorker<u32> = ThreadWorker::new("Alice", None);
    let b: ThreadWorker<u32> = ThreadWorker::new("Alice", None);
    let c: ThreadWorker<u32> = ThreadWorker::new("Bob", None);
    assert!(a == b);
    assert!(a != c);
    let with_function = ThreadWorker::new("Alice", Some(1u32));
    assert!(with_function != a);
    assert!(with_function != with_function);
}

#[test]
fn take_function_leaves_worker_without_one() {
    let mut worker = ThreadWorker::new("Alice", Some(3u32));
    assert_eq!(worker.take_function(), Some(3));
    assert_eq!(worker.take_function(), None);
    assert_eq!(worker.name(), "Alice");
}

#[test]
fn test_save_thread_worker() {
    let mut repository = ThreadWorkerRepositoryImpl::new();
    repository.save_thread_worker("TestWorker", Some(5u32));
    match repository.start_thread_worker("TestWorker") {
        WorkerStart::Launch(f) => assert_eq!(f, 5),
        _ => panic!("the saved function is launched"),
    }
    assert!(matches!(repository.start_thread_worker("TestWorker"), WorkerStart::NothingToRun));
}

#[test]
fn test_save_sync_thread_worker() {
    let mut repository: ThreadWorkerRepositoryImpl<Closure<u8, fn()>> = ThreadWorkerRepositoryImpl::new();
    repository.save_thread_worker("SyncTestWorker", Some(Closure::Sync(hello as fn())));
    match repository.start_thread_worker("SyncTestWorker") {
        WorkerStart::Launch(Closure::Sync(f)) => f(),
        _ => panic!("the saved synchronous function is launched"),
    }
}

#[test]
fn test_save_async_thread_worker() {
    let mut repository: ThreadWorkerRepositoryImpl<Closure<u8, fn()>> = ThreadWorkerRepositoryImpl::new();
    repository.save_thread_worker("AsyncTestWorker", Some(Closure::Async(1)));
    assert!(matches!(
        repository.start_thread_worker("AsyncTestWorker"),
        WorkerStart::Launch(Closure::Async(1))
    ));
}

#[test]
fn only_saved_workers_can_be_started() {
    let mut repository: ThreadWorkerRepositoryImpl<u32> = ThreadWorkerRepositoryImpl::new();
    repository.save_thread_worker("Known", Some(1));
    assert!(!repository.contains_worker("Unknown"));
    assert!(repository.contains_worker("Known"));
    assert!(matches!(repository.start_thread_worker("Known"), WorkerStart::Launch(1)));
}

#[test]
fn started_workers_stay_startable() {
    let mut repository: ThreadWorkerRepositoryImpl<u32> = ThreadWorkerRepositoryImpl::new();
    assert!(!repository.contains_worker("W"));
    repository.save_thread_worker("W", Some(4));
    assert!(matches!(repository.start_thread_worker("W"), WorkerStart::Launch(4)));
    assert!(repository.contains_worker("W"));
    assert!(matches!(repository.start_thread_worker("W"), WorkerStart::NothingToRun));
    assert!(repository.contains_worker("W"));
    assert!(!repository.contains_worker("V"));
}

#[test]
fn debug_text_of_workers() {
    let bare: ThreadWorker<u32> = ThreadWorker::new("John Doe", None);
    assert_eq!(
        bare.debug_text(),
        "ThreadWorker { name: \"John Doe\", will_be_execute_function: \"None\" }"
    );
    let quoted: ThreadWorker<u32> = ThreadWorker::new("say \"hi\"", Some(1));
    assert_eq!(
        quoted.debug_text(),
        "ThreadWorker { name: \"say \\\"hi\\\"\", will_be_execute_function: \"Some(Arc<Mutex<Box<dyn Fn() -> Pin<Box<dyn Future<Output = ()>>> + Send>>>)\" }"
    );
}

#[test]
fn saving_again_replaces_function() {
    let mut repository = ThreadWorkerRepositoryImpl::new();
    repository.save_thread_worker("W", Some(hello as fn()));
    repository.save_thread_worker("W", Some(other as fn()));
    let found = repository.find_by_name("W").unwrap();
    assert!(found.get_will_be_execute_function() == Some(other as fn()));
}

fn service() -> ThreadWorkerServiceImpl<fn()> {
    ThreadWorkerServiceImpl::new(Some(ThreadWorkerRepositoryImpl::new()))
}

// The shared instance itself is the program's; this checks what one instance does.
#[test]
fn thread_worker_service_impl_test_singleton_behavior() {
    let mut instance = service();

    instance.create_thread("Alice", None);
    let retrieved_worker = instance.get_thread("Alice");

    assert_eq!(retrieved_worker.map(|w| w.name().to_owned()), Some("Alice".to_owned()));
}

#[test]
fn thread_worker_service_impl_test_create_and_get_thread() {
    let mut instance = service();
    instance.create_thread("Bob", None);

    let retrieved_worker = instance.get_thread("Bob");
    assert_eq!(retrieved_worker.map(|w| w.name().to_owned()), Some("Bob".to_owned()));
}

#[test]
fn thread_worker_service_impl_test_get_nonexistent_thread() {
    let instance = service();
    let retrieved_worker = instance.get_thread("Nonexistent");

    assert!(retrieved_worker == None);
}

#[test]
fn test_start_worker_thread_without_custom_function() {
    let mut instance = service();
    instance.create_thread("Bob", None);
    assert!(matches!(instance.start_worker("Bob"), WorkerStart::NothingToRun));
}

#[test]
fn service_start_launches_once() {
    let mut instance = service();
    instance.create_thread("Alice", Some(hello as fn()));
    assert!(matches!(instance.start_worker("Alice"), WorkerStart::Launch(_)));
    assert!(matches!(instance.start_worker("Alice"), WorkerStart::NothingToRun));
    assert!(!instance.can_start("Nobody"));
    assert!(instance.can_start("Alice"));
}

#[test]
fn service_without_repository() {
    let mut instance: ThreadWorkerServiceImpl<fn()> = ThreadWorkerServiceImpl::new(None);
    instance.create_thread("Alice", Some(hello as fn()));
    assert!(instance.get_thread("Alice") == None);
    assert!(instance.can_start("Alice"));
    assert!(matches!(instance.start_worker("Alice"), WorkerStart::RepositoryMissing));
}
