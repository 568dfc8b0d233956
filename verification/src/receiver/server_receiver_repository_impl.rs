use vstd::prelude::*;
use vstd::utf8::{decode_utf8, encode_utf8, valid_utf8};
use crate::receiver::receive_data::ReceiveData;

verus! {

/// Decodes `bytes` as UTF-8 by calling `std::str::from_utf8`.
///
/// Trusted: as std documents, the call succeeds exactly when the bytes are valid UTF-8, and the
/// text it gives back consists of the characters those bytes encode.
#[verifier::external_body]
fn decode_text(bytes: &[u8]) -> (text: Option<&str>)
    ensures
        text is Some <==> valid_utf8(bytes@),
        text matches Some(t) ==> t@ == decode_utf8(bytes@),
{
    std::str::from_utf8(bytes).ok()
}

/// What the receiver does with the outcome of one read from the client's stream.
#[derive(Debug, PartialEq, Eq)]
pub enum ReceiveStep {
    /// The stream is exhausted or failed: stop reading.
    Finished,
    /// The bytes read form this text: report it and read on.
    Text(String),
    /// The bytes read are not valid UTF-8: report that and read on.
    NotUtf8,
}

/// A receive step, with the text as a character sequence.
pub enum ReceiveStepView {
    Finished,
    Text(Seq<char>),
    NotUtf8,
}

impl View for ReceiveStep {
    type V = ReceiveStepView;

    open spec fn view(&self) -> ReceiveStepView {
        match self {
            ReceiveStep::Finished => ReceiveStepView::Finished,
            ReceiveStep::Text(text) => ReceiveStepView::Text(text@),
            ReceiveStep::NotUtf8 => ReceiveStepView::NotUtf8,
        }
    }
}

/// The step a receiver whose buffer holds `content` takes after a read of `read` bytes
/// (`None` when the read failed): the first `read` bytes of the buffer are the data received.
pub open spec fn expected_step(content: Seq<u8>, read: Option<usize>) -> ReceiveStepView {
    match read {
        None => ReceiveStepView::Finished,
        Some(n) => if n == 0 {
            ReceiveStepView::Finished
        } else if valid_utf8(content.subrange(0, n as int)) {
            ReceiveStepView::Text(decode_utf8(content.subrange(0, n as int)))
        } else {
            ReceiveStepView::NotUtf8
        },
    }
}


/// A failed read and a read of no bytes both end the receiving, whatever the buffer holds.
pub proof fn law_empty_or_failed_read_finishes(content: Seq<u8>)
    ensures
        expected_step(content, Some(0usize)) == ReceiveStepView::Finished,
        expected_step(content, None) == ReceiveStepView::Finished,
{
}

/// A read of `n > 0` bytes never ends the receiving. It reports text exactly when the `n` bytes
/// read are valid UTF-8, and the text is then the one whose UTF-8 encoding is all `n` of those
/// bytes: nothing read is dropped or added.
pub proof fn law_read_reports_all_bytes_read(content: Seq<u8>, n: usize)
    requires
        0 < n <= content.len(),
    ensures
        !(expected_step(content, Some(n)) is Finished),
        expected_step(content, Some(n)) is NotUtf8 <==> !valid_utf8(content.subrange(0, n as int)),
        expected_step(content, Some(n)) matches ReceiveStepView::Text(text) ==> encode_utf8(text)
            == content.subrange(0, n as int),
{
    let read = content.subrange(0, n as int);
    if valid_utf8(read) {
        vstd::utf8::decode_utf8_encode_utf8(read);
    }
}

/// Receives data from the client connections handed to it over its acceptor channel.
///
/// `C` is how the receiver reaches the acceptor channel (the runtime shares one channel).
pub struct ServerReceiverRepositoryImpl<C> {
    receive_data: ReceiveData,
    acceptor_channel_arc: Option<C>,
}

impl<C> ServerReceiverRepositoryImpl<C> {
    /// The bytes buffered so far.
    pub closed spec fn buffered(&self) -> Seq<u8> {
        self.receive_data.content()
    }

    /// The acceptor channel, once one has been handed over.
    pub closed spec fn acceptor_channel(&self) -> Option<C> {
        self.acceptor_channel_arc
    }

    /// A receiver with an empty buffer and no acceptor channel.
    pub fn new() -> (repository: Self)
        ensures
            repository.buffered() == Seq::<u8>::empty(),
            repository.acceptor_channel() is None,
    {
        ServerReceiverRepositoryImpl { receive_data: ReceiveData::new(), acceptor_channel_arc: None }
    }

    /// The receive buffer.
    pub fn get_receive_data(&self) -> (data: &ReceiveData)
        ensures
            data.content() == self.buffered(),
    {
        &self.receive_data
    }

    /// Write access to the receive buffer, which a read fills.
    pub fn receive_data_mut(&mut self) -> (data: &mut ReceiveData)
        ensures
            data.content() == old(self).buffered(),
            final(self).buffered() == final(data).content(),
            final(self).acceptor_channel() == old(self).acceptor_channel(),
    {
        &mut self.receive_data
    }

    /// Hands the receiver the channel over which accepted connections arrive; a channel handed
    /// over before is dropped.
    pub fn inject_accept_channel(&mut self, acceptor_channel_arc: C)
        ensures
            final(self).acceptor_channel() == Some(acceptor_channel_arc),
            final(self).buffered() == old(self).buffered(),
    {
        self.acceptor_channel_arc = Some(acceptor_channel_arc);
    }

    /// The acceptor channel, if one has been handed over.
    pub fn get_acceptor_channel(&self) -> (channel: Option<&C>)
        ensures
            match channel {
                Some(c) => self.acceptor_channel() == Some(*c),
                None => self.acceptor_channel() is None,
            },
    {
        self.acceptor_channel_arc.as_ref()
    }

    /// The step after a read of `read` bytes into the buffer (`None` when the read failed):
    /// a failed or empty read ends the receiving; otherwise the first `read` bytes are decoded.
    pub fn receive_step(&self, read: Option<usize>) -> (step: ReceiveStep)
        requires
            read matches Some(n) ==> n <= self.buffered().len(),
        ensures
            step@ == expected_step(self.buffered(), read),
    {
        match read {
            None => ReceiveStep::Finished,
            Some(n) => {
                if n == 0 {
                    ReceiveStep::Finished
                } else {
                    let stored_data = self.receive_data.get_receive_content();
                    let received = vstd::slice::slice_subrange(stored_data, 0, n);
                    match decode_text(received) {
                        Some(text) => ReceiveStep::Text(text.to_owned()),
                        None => ReceiveStep::NotUtf8,
                    }
                }
            },
        }
    }
}

} // verus!
