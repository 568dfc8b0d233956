pub mod worker;
pub mod worker_repository_impl;
pub mod worker_service_impl;
