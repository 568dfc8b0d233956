pub mod worker_error;
pub mod worker_service_impl;
