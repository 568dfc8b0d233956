pub mod client_socket_accept;
pub mod name_table;
pub mod receiver;
pub mod server_socket;
pub mod thread_control;
pub mod thread_manage;
pub mod thread_manage_legacy;
pub mod utility;
