use vstd::prelude::*;
use crate::server_socket::server_socket_repository_impl::ServerSocketRepositoryImpl;

verus! {

/// Accepts clients on the server's listener into a client repository.
///
/// `R` is how the service reaches the client repository (the runtime shares one repository).
pub struct ClientSocketAcceptServiceImpl<R, L> {
    client_socket_accept_repository: R,
    server_socket_repository: ServerSocketRepositoryImpl<L>,
}

impl<R, L> ClientSocketAcceptServiceImpl<R, L> {
    /// The client repository the service fills.
    pub closed spec fn client_repository(&self) -> R {
        self.client_socket_accept_repository
    }

    /// The listener the service accepts on, if its server socket is bound.
    pub closed spec fn listener(&self) -> Option<L> {
        self.server_socket_repository.listener()
    }

    /// A service that fills `client_socket_accept_repository` from the listener of
    /// `server_socket_repository`.
    pub fn new(
        client_socket_accept_repository: R,
        server_socket_repository: ServerSocketRepositoryImpl<L>,
    ) -> (service: Self)
        ensures
            service.client_repository() == client_socket_accept_repository,
            service.listener() == server_socket_repository.listener(),
    {
        ClientSocketAcceptServiceImpl { client_socket_accept_repository, server_socket_repository }
    }

    /// What accepting clients works with: the client repository and the listener, or `None`
    /// when no listener is available to accept on.
    pub fn accept_target(&self) -> (parts: Option<(&R, &L)>)
        ensures
            match parts {
                Some((repository, listener)) => *repository == self.client_repository()
                    && self.listener() == Some(*listener),
                None => self.listener() is None,
            },
    {
        match self.server_socket_repository.get_listener() {
            Some(listener) => Some((&self.client_socket_accept_repository, listener)),
            None => None,
        }
    }
}

} // verus!
