pub mod closure;
pub mod thread_worker;
pub mod thread_worker_repository_impl;
pub mod thread_worker_service_impl;
