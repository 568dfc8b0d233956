use vstd::prelude::*;

verus! {

/// An accepted client: its address (or another name for it) and the stream connected to it.
pub struct ClientSocket<S> {
    address: String,
    stream: S,
}

impl<S> ClientSocket<S> {
    /// The client's address.
    pub closed spec fn client_address(&self) -> Seq<char> {
        self.address@
    }

    /// The stream connected to the client.
    pub closed spec fn client_stream(&self) -> S {
        self.stream
    }

    /// A client at `address`, reached through `stream`.
    pub fn new(address: String, stream: S) -> (client: Self)
        ensures
            client.client_address() == address@,
            client.client_stream() == stream,
    {
        ClientSocket { address, stream }
    }

    /// The client's address.
    pub fn address(&self) -> (address: &str)
        ensures
            address@ == self.client_address(),
    {
        self.address.as_str()
    }

    /// The stream connected to the client.
    pub fn stream(&self) -> (stream: &S)
        ensures
            *stream == self.client_stream(),
    {
        &self.stream
    }
}

} // verus!
