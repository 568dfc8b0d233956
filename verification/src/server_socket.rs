pub mod server_socket_repository_impl;
pub mod socket_client;
