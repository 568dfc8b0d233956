use vstd::prelude::*;
use crate::client_socket_accept::client_socket::ClientSocket;
use crate::name_table::NameTable;

verus! {

/// How long the accept loop waits, in milliseconds, after each attempt to accept a client.
pub const ACCEPT_RETRY_DELAY_MS: u64 = 300;


/// The accepted clients, each stored under its address.
pub struct ClientSocketAcceptRepositoryImpl<S> {
    client_list: NameTable<ClientSocket<S>>,
}

impl<S> ClientSocketAcceptRepositoryImpl<S> {
    #[verifier::type_invariant]
    closed spec fn inv(self) -> bool {
        forall|address: Seq<char>| #[trigger]
            self.client_list@.contains_key(address) ==> self.client_list@[address].client_address()
                == address
    }

    /// The stream of each accepted client, under the client's address.
    pub closed spec fn clients(&self) -> Map<Seq<char>, S> {
        self.client_list@.map_values(|client: ClientSocket<S>| client.client_stream())
    }

    /// The stream of the client listed under `address`, or `None` when no client is.
    pub open spec fn client_at(&self, address: Seq<char>) -> Option<S> {
        if self.clients().contains_key(address) {
            Some(self.clients()[address])
        } else {
            None
        }
    }

    /// A repository with no clients.
    pub fn new() -> (repository: Self)
        ensures
            repository.clients() == Map::<Seq<char>, S>::empty(),
    {
        let repository = ClientSocketAcceptRepositoryImpl { client_list: NameTable::new() };
        assert(repository.clients() =~= Map::<Seq<char>, S>::empty());
        repository
    }

    /// The accepted clients, by address.
    pub fn get_client_list(&self) -> (list: &NameTable<ClientSocket<S>>)
        ensures
            list@.map_values(|client: ClientSocket<S>| client.client_stream()) == self.clients(),
            forall|address: Seq<char>| #[trigger]
                list@.contains_key(address) ==> list@[address].client_address() == address,
    {
        proof {
            use_type_invariant(self);
        }
        &self.client_list
    }

    /// Records a client the listener accepted from `peer_address` on `stream`; a client stored
    /// before under the same address is replaced.
    pub fn add_accepted_client(&mut self, peer_address: String, stream: S)
        ensures
            final(self).clients() == old(self).clients().insert(peer_address@, stream),
    {
        proof {
            use_type_invariant(&*self);
        }
        let client = ClientSocket::new(peer_address, stream);
        let key = client.address().to_owned();
        let mut list = NameTable::new();
        std::mem::swap(&mut list, &mut self.client_list);
        let ghost old_list = list@;
        list.insert(key, client);
        assert(list@.map_values(|c: ClientSocket<S>| c.client_stream()) =~= old_list.map_values(
            |c: ClientSocket<S>| c.client_stream(),
        ).insert(peer_address@, stream));
        self.client_list = list;
    }
}

/// After `add_accepted_client(address, stream)`, the client listed under `address` is the one on
/// `stream`, and the clients at other addresses stay listed as they were.
pub proof fn law_accepted_client_is_listed<S>(before: ClientSocketAcceptRepositoryImpl<S>, after: ClientSocketAcceptRepositoryImpl<S>, address: Seq<char>, stream: S, other: Seq<char>)
    requires
        after.clients() == before.clients().insert(address, stream),
        other != address,
    ensures
        after.client_at(address) == Some(stream),
        after.client_at(other) == before.client_at(other),
{
}

} // verus!
