//! The write side of a participant's reliable channel.
//!
//! A channel holds the network endpoint it belongs to and the messages that
//! were written to it and have not yet been moved to the wire.

use vstd::prelude::*;

verus! {

/// What an [`Endpoint`] holds, as mathematical text.
pub ghost struct EndpointView {
    pub address: Seq<char>,
    pub port: u16,
}

/// A network endpoint: an address in text and a port.
#[derive(Debug)]
pub struct Endpoint {
    /// The address, as text.
    pub address: String,
    /// The port.
    pub port: u16,
}

impl View for Endpoint {
    type V = EndpointView;

    open spec fn view(&self) -> EndpointView {
        EndpointView { address: self.address@, port: self.port }
    }
}

impl Endpoint {
    /// The endpoint with this address and port.
    pub fn new(address: String, port: u16) -> (endpoint: Endpoint)
        ensures
            endpoint@ == (EndpointView { address: address@, port }),
    {
        Endpoint { address, port }
    }

    /// A second endpoint with the same address and port.
    pub fn copy(other: &Endpoint) -> (endpoint: Endpoint)
        ensures
            endpoint@ == other@,
    {
        Endpoint { address: other.address.clone(), port: other.port }
    }

    /// Whether two endpoints have the same address and the same port.
    pub fn same(&self, other: &Endpoint) -> (same: bool)
        ensures
            same == (self@ == other@),
    {
        self.address == other.address && self.port == other.port
    }
}

/// The texts of a list of messages, in order.
pub open spec fn texts(messages: Seq<String>) -> Seq<Seq<char>> {
    Seq::new(messages.len(), |i: int| messages[i]@)
}

/// What a [`Channel`] holds: its endpoint and the messages written to it
/// that wait to be sent, oldest first.
pub ghost struct ChannelView {
    pub endpoint: EndpointView,
    pub pending: Seq<Seq<char>>,
}

/// The write side of one participant's reliable channel.
#[derive(Debug)]
pub struct Channel {
    endpoint: Endpoint,
    outbox: Vec<String>,
}

impl View for Channel {
    type V = ChannelView;

    closed spec fn view(&self) -> ChannelView {
        ChannelView { endpoint: self.endpoint@, pending: texts(self.outbox@) }
    }
}

impl Channel {
    /// A channel of this endpoint with nothing written to it.
    pub fn new(endpoint: Endpoint) -> (channel: Channel)
        ensures
            channel@ == (ChannelView { endpoint: endpoint@, pending: Seq::empty() }),
    {
        let channel = Channel { endpoint, outbox: Vec::new() };
        assert(texts(channel.outbox@) =~= Seq::empty());
        channel
    }

    /// The endpoint this channel belongs to.
    pub fn endpoint(&self) -> (endpoint: &Endpoint)
        ensures
            endpoint@ == self@.endpoint,
    {
        &self.endpoint
    }

    /// The messages that wait to be sent, oldest first.
    pub fn pending(&self) -> (messages: &Vec<String>)
        ensures
            texts(messages@) == self@.pending,
    {
        &self.outbox
    }

    /// Writes `message` to the channel: it joins the pending messages as
    /// the newest.
    pub fn write(&mut self, message: String)
        ensures
            final(self)@ == (ChannelView {
                endpoint: old(self)@.endpoint,
                pending: old(self)@.pending.push(message@),
            }),
    {
        self.outbox.push(message);
        assert(texts(self.outbox@) =~= texts(old(self).outbox@).push(message@));
    }

    /// Takes the pending messages out, oldest first, to be sent. Nothing is
    /// pending afterwards.
    pub fn flush(&mut self) -> (messages: Vec<String>)
        ensures
            texts(messages@) == old(self)@.pending,
            final(self)@ == (ChannelView { endpoint: old(self)@.endpoint, pending: Seq::empty() }),
    {
        let mut messages: Vec<String> = Vec::new();
        core::mem::swap(&mut self.outbox, &mut messages);
        assert(texts(self.outbox@) =~= Seq::empty());
        messages
    }
}

} // verus!
