use vstd::prelude::*;

verus! {

/// A connected client: its address and the stream that talks to it.
pub struct SocketClient<S> {
    pub address: String,
    pub stream: S,
}

} // verus!
