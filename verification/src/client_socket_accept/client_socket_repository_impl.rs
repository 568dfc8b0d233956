use vstd::prelude::*;
use crate::name_table::NameTable;
use crate::server_socket::socket_client::SocketClient;

verus! {

/// A list of connected clients by address, kept for an accept loop that never fills it.
pub struct ClientSocketRepositoryImpl<S> {
    client_list: NameTable<SocketClient<S>>,
}

impl<S> ClientSocketRepositoryImpl<S> {
    /// The addresses of the clients in the list.
    pub closed spec fn addresses(&self) -> Set<Seq<char>> {
        self.client_list@.dom()
    }

    /// A repository with no clients.
    pub fn new() -> (repository: Self)
        ensures
            repository.addresses() == Set::<Seq<char>>::empty(),
    {
        let repository = ClientSocketRepositoryImpl { client_list: NameTable::new() };
        assert(repository.addresses() =~= Set::<Seq<char>>::empty());
        repository
    }
}

} // verus!
