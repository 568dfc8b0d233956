pub mod receive_data;
pub mod server_receiver_repository_impl;
pub mod server_receiver_service_impl;
