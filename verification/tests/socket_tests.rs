use rust_tokio_example::client_socket_accept::client_socket::ClientSocket;
use rust_tokio_example::client_socket_accept::client_socket_accept_repository_impl::{ClientSocketAcceptRepositoryImpl, ACCEPT_RETRY_DELAY_MS};
use rust_tokio_example::client_socket_accept::client_socket_accept_service_impl::ClientSocketAcceptServiceImpl;
use rust_tokio_example::server_socket::server_socket_repository_impl::ServerSocketRepositoryImpl;

#[test]
fn test_socket_client() {
    let client = ClientSocket::new("test_client".to_string(), 42u32);
    assert_eq!(client.address(), "test_client");
    assert_eq!(*client.stream(), 42);
}

#[test]
fn test_get_listener_unbound() {
    let repository: ServerSocketRepositoryImpl<u16> = ServerSocketRepositoryImpl::new();
    let listener = repository.get_listener();

    assert!(listener.is_none());
}

#[test]
fn test_get_listener_bound() {
    let mut repository: ServerSocketRepositoryImpl<u16> = ServerSocketRepositoryImpl::new();
    match repository.bind_socket::<String>(Ok(9787)) {
        Ok(()) => {
            let listener = repository.get_listener();
            assert!(listener.is_some());
        }
        Err(err) => {
            panic!("Error binding socket: {:?}", err);
        }
    }
}

#[test]
fn test_bind_socket() {
    let runtime = tokio::runtime::Runtime::new().unwrap();
    let address = "127.0.0.1:37373";
    let bound = runtime.block_on(tokio::net::TcpListener::bind(address));
    let mut repository = ServerSocketRepositoryImpl::new();

    match repository.bind_socket(bound) {
        Ok(()) => {
            if let Some(listener) = repository.get_listener() {
                let bound_address = listener.local_addr().unwrap();
                assert_eq!(bound_address.to_string(), address);
            } else {
                panic!("Listener not found after successful bind");
            }
        }
        Err(err) => {
            panic!("Error binding socket: {:?}", err);
        }
    }
}

#[test]
fn failed_bind_keeps_previous_listener() {
    let mut repository: ServerSocketRepositoryImpl<u16> = ServerSocketRepositoryImpl::new();
    assert_eq!(repository.bind_socket::<&str>(Err("address in use")), Err("address in use"));
    assert!(repository.get_listener().is_none());
    assert_eq!(repository.bind_socket::<&str>(Ok(1)), Ok(()));
    assert_eq!(repository.bind_socket::<&str>(Err("address in use")), Err("address in use"));
    assert_eq!(repository.get_listener(), Some(&1));
}

#[test]
fn clone_and_equality_of_server_socket_repository() {
    let unbound: ServerSocketRepositoryImpl<u16> = ServerSocketRepositoryImpl::new();
    let mut bound: ServerSocketRepositoryImpl<u16> = ServerSocketRepositoryImpl::new();
    let _ = bound.bind_socket::<()>(Ok(8080));
    assert!(unbound == unbound.clone());
    assert!(bound.clone().get_listener().is_none());
    assert!(bound != bound);
    assert!(bound != unbound);
}

#[test]
fn accepted_clients_are_stored_by_address() {
    let mut repository = ClientSocketAcceptRepositoryImpl::new();
    assert!(!repository.get_client_list().contains("127.0.0.1:5000"));
    repository.add_accepted_client("127.0.0.1:5000".to_string(), 1u32);
    repository.add_accepted_client("127.0.0.1:5001".to_string(), 2u32);
    let list = repository.get_client_list();
    assert_eq!(list.get("127.0.0.1:5000").map(|c| *c.stream()), Some(1));
    assert_eq!(list.get("127.0.0.1:5001").map(|c| c.address().to_owned()), Some("127.0.0.1:5001".to_owned()));
    repository.add_accepted_client("127.0.0.1:5000".to_string(), 3u32);
    assert_eq!(repository.get_client_list().get("127.0.0.1:5000").map(|c| *c.stream()), Some(3));
    assert_eq!(ACCEPT_RETRY_DELAY_MS, 300);
}

#[test]
fn accept_service_needs_a_listener() {
    let unbound: ServerSocketRepositoryImpl<u16> = ServerSocketRepositoryImpl::new();
    let service = ClientSocketAcceptServiceImpl::new("clients", unbound);
    assert!(service.accept_target().is_none());

    let mut bound: ServerSocketRepositoryImpl<u16> = ServerSocketRepositoryImpl::new();
    let _ = bound.bind_socket::<()>(Ok(7373));
    let service = ClientSocketAcceptServiceImpl::new("clients", bound);
    assert_eq!(service.accept_target(), Some((&"clients", &7373)));
}

