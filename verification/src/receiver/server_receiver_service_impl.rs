use vstd::prelude::*;

verus! {

/// Brings together the receiver and the accepted-client repository it serves.
///
/// `R` and `A` are how the service reaches them (the runtime shares one of each).
pub struct ServerReceiverServiceImpl<R, A> {
    server_receiver_repository: R,
    client_socket_accept_repository: A,
}

impl<R, A> ServerReceiverServiceImpl<R, A> {
    /// The receiver the service uses.
    pub closed spec fn receiver(&self) -> R {
        self.server_receiver_repository
    }

    /// The accepted-client repository the service uses.
    pub closed spec fn client_repository(&self) -> A {
        self.client_socket_accept_repository
    }

    /// A service over the given receiver and accepted-client repository.
    pub fn new(server_receiver_repository: R, client_socket_accept_repository: A) -> (service: Self)
        ensures
            service.receiver() == server_receiver_repository,
            service.client_repository() == client_socket_accept_repository,
    {
        ServerReceiverServiceImpl { server_receiver_repository, client_socket_accept_repository }
    }

    /// The receiver the service uses.
    pub fn server_receiver_repository(&self) -> (repository: &R)
        ensures
            *repository == self.receiver(),
    {
        &self.server_receiver_repository
    }

    /// The accepted-client repository the service uses.
    pub fn client_socket_accept_repository(&self) -> (repository: &A)
        ensures
            *repository == self.client_repository(),
    {
        &self.client_socket_accept_repository
    }
}

} // verus!
