use rust_tokio_example::receiver::receive_data::ReceiveData;
use rust_tokio_example::receiver::server_receiver_repository_impl::{ReceiveStep, ServerReceiverRepositoryImpl};
use rust_tokio_example::receiver::server_receiver_service_impl::ServerReceiverServiceImpl;

#[test]
fn test_receive_data() {
    let mut receive_data = ReceiveData::new();

    receive_data.receive_content_mut().extend_from_slice(b"Hello, World!");

    let stored_data = receive_data.get_receive_content();
    assert_eq!(stored_data, b"Hello, World!" as &[u8]);
}

#[test]
fn new_receive_data_is_empty() {
    let receive_data = ReceiveData::new();
    assert!(receive_data.get_receive_content().is_empty());
}

#[test]
fn receiver_starts_empty_without_channel() {
    let repository: ServerReceiverRepositoryImpl<u32> = ServerReceiverRepositoryImpl::new();
    assert!(repository.get_receive_data().get_receive_content().is_empty());
    assert!(repository.get_acceptor_channel().is_none());
}

#[test]
fn injected_channel_is_kept_and_replaced() {
    let mut repository: ServerReceiverRepositoryImpl<u32> = ServerReceiverRepositoryImpl::new();
    repository.inject_accept_channel(7);
    assert_eq!(repository.get_acceptor_channel(), Some(&7));
    repository.inject_accept_channel(9);
    assert_eq!(repository.get_acceptor_channel(), Some(&9));
}

#[test]
fn empty_or_failed_read_finishes() {
    let repository: ServerReceiverRepositoryImpl<u32> = ServerReceiverRepositoryImpl::new();
    assert_eq!(repository.receive_step(Some(0)), ReceiveStep::Finished);
    assert_eq!(repository.receive_step(None), ReceiveStep::Finished);
}

#[test]
fn read_bytes_are_decoded_as_text() {
    let mut repository: ServerReceiverRepositoryImpl<u32> = ServerReceiverRepositoryImpl::new();
    repository
        .receive_data_mut()
        .receive_content_mut()
        .extend_from_slice(b"Hello, Rust Network Library: Tokio!");
    assert_eq!(repository.receive_step(Some(5)), ReceiveStep::Text("Hello".to_string()));
    assert_eq!(
        repository.receive_step(Some(35)),
        ReceiveStep::Text("Hello, Rust Network Library: Tokio!".to_string())
    );
}

#[test]
fn invalid_utf8_is_reported() {
    let mut repository: ServerReceiverRepositoryImpl<u32> = ServerReceiverRepositoryImpl::new();
    repository.receive_data_mut().receive_content_mut().extend_from_slice(&[0x48, 0xff, 0x49]);
    assert_eq!(repository.receive_step(Some(3)), ReceiveStep::NotUtf8);
    assert_eq!(repository.receive_step(Some(1)), ReceiveStep::Text("H".to_string()));
}

#[test]
fn cut_multibyte_character_is_not_text() {
    let mut repository: ServerReceiverRepositoryImpl<u32> = ServerReceiverRepositoryImpl::new();
    repository.receive_data_mut().receive_content_mut().extend_from_slice("é".as_bytes());
    assert_eq!(repository.receive_step(Some(1)), ReceiveStep::NotUtf8);
    assert_eq!(repository.receive_step(Some(2)), ReceiveStep::Text("é".to_string()));
}

#[test]
fn receiver_service_keeps_its_parts() {
    let service = ServerReceiverServiceImpl::new(1u8, "clients");
    assert_eq!(*service.server_receiver_repository(), 1u8);
    assert_eq!(*service.client_socket_accept_repository(), "clients");
}
