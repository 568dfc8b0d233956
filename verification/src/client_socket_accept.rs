pub mod client_socket;
pub mod client_socket_accept_repository_impl;
pub mod client_socket_accept_service_impl;
pub mod client_socket_repository_impl;
