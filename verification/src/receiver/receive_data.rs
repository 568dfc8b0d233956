use vstd::prelude::*;

verus! {

/// The bytes a receiver has buffered from a client connection.
pub struct ReceiveData {
    receive_content: Vec<u8>,
}

impl ReceiveData {
    /// The buffered bytes, as a sequence.
    pub closed spec fn content(&self) -> Seq<u8> {
        self.receive_content@
    }

    /// An empty buffer.
    pub fn new() -> (data: Self)
        ensures
            data.content() == Seq::<u8>::empty(),
    {
        ReceiveData { receive_content: Vec::new() }
    }

    /// Read access to the buffered bytes.
    pub fn get_receive_content(&self) -> (content: &[u8])
        ensures
            content@ == self.content(),
    {
        self.receive_content.as_slice()
    }

    /// Write access to the buffer; whatever the caller leaves in it becomes the buffer.
    pub fn receive_content_mut(&mut self) -> (content: &mut Vec<u8>)
        ensures
            content@ == old(self).content(),
            final(self).content() == final(content)@,
    {
        &mut self.receive_content
    }
}

} // verus!
