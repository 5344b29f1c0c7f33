//! The relay of the unreliable channel.
//!
//! Datagrams carry the same four-character codes as the lines of the
//! reliable channel. The relay keeps no identities of its own: a datagram is
//! passed on to the endpoints that the registry holds at that moment.

use crate::channel::{Endpoint, EndpointView};
use crate::error::RelayError;
use crate::protocol::{command, command_of, make_bare_line, pong_line, Command, CODE_LEN, PONG};
use crate::registry::{Connections, EntryView};
use vstd::prelude::*;
use vstd::string::*;
use vstd::utf8::{decode_utf8, encode_utf8_decode_utf8, valid_utf8};

verus! {

/// What a [`Datagram`] holds.
pub ghost struct DatagramView {
    pub to: EndpointView,
    pub payload: Seq<char>,
}

/// A datagram to be sent.
#[derive(Debug)]
pub struct Datagram {
    /// Where it goes.
    pub to: Endpoint,
    /// What it carries.
    pub payload: String,
}

impl View for Datagram {
    type V = DatagramView;

    open spec fn view(&self) -> DatagramView {
        DatagramView { to: self.to@, payload: self.payload@ }
    }
}

/// What each of `datagrams` holds, in order.
pub open spec fn datagram_views(datagrams: Seq<Datagram>) -> Seq<DatagramView> {
    Seq::new(datagrams.len(), |i: int| datagrams[i]@)
}

/// The endpoints of the channels of `entries`, in order.
pub open spec fn endpoints(entries: Seq<EntryView>) -> Seq<EndpointView> {
    Seq::new(entries.len(), |i: int| entries[i].channel.endpoint)
}

/// One datagram with `payload` for each of `addresses`, in their order,
/// but none for the endpoint `skipped`, if one is given.
pub open spec fn forwarded(
    addresses: Seq<EndpointView>,
    payload: Seq<char>,
    skipped: Option<EndpointView>,
) -> Seq<DatagramView>
    decreases addresses.len(),
{
    if addresses.len() == 0 {
        Seq::empty()
    } else {
        let earlier = forwarded(addresses.drop_last(), payload, skipped);
        if skipped == Some(addresses.last()) {
            earlier
        } else {
            earlier.push(DatagramView { to: addresses.last(), payload })
        }
    }
}

/// The datagrams that answer the datagram `text`, which came from `sender`
/// to the relay listening at `local`, while the registry held `addresses`.
///
/// | code | answer |
/// |---|---|
/// | ping | a pong to the sender |
/// | vehicle update | the datagram as it came, to every address but the relay's own |
/// | any other | the datagram as it came, to every address |
pub open spec fn relayed(
    text: Seq<char>,
    sender: EndpointView,
    local: EndpointView,
    addresses: Seq<EndpointView>,
) -> Seq<DatagramView> {
    match command_of(text) {
        Command::Ping => seq![DatagramView { to: sender, payload: pong_line() }],
        Command::VehicleUpdate => forwarded(addresses, text, Some(local)),
        _ => forwarded(addresses, text, None),
    }
}

/// Reads `bytes` as text, by `core::str::from_utf8`.
///
/// Not proved: that text comes back if and only if the bytes are valid
/// UTF-8, and that the text is made of these very bytes.
#[verifier::external_body]
fn text_of(bytes: &[u8]) -> (text: Option<&str>)
    ensures
        text is Some <==> valid_utf8(bytes@),
        text matches Some(s) ==> s.spec_bytes() == bytes@,
{
    core::str::from_utf8(bytes).ok()
}

/// One datagram with `payload` for each of `addresses`, but none for
/// `skipped`.
fn forward(addresses: &Vec<Endpoint>, payload: &str, skipped: Option<&Endpoint>) -> (datagrams:
    Vec<Datagram>)
    ensures
        datagram_views(datagrams@) == forwarded(
            Seq::new(addresses@.len(), |i: int| addresses@[i]@),
            payload@,
            match skipped {
                Some(endpoint) => Some(endpoint@),
                None => None,
            },
        ),
{
    let ghost all = Seq::new(addresses@.len(), |i: int| addresses@[i]@);
    let ghost skip = match skipped {
        Some(endpoint) => Some(endpoint@),
        None => None,
    };
    let mut datagrams: Vec<Datagram> = Vec::new();
    let n = addresses.len();
    let mut i: usize = 0;
    while i < n
        invariant
            i <= n,
            n == addresses@.len(),
            all == Seq::new(addresses@.len(), |i: int| addresses@[i]@),
            skip == match skipped {
                Some(endpoint) => Some(endpoint@),
                None => None,
            },
            datagram_views(datagrams@) == forwarded(all.take(i as int), payload@, skip),
        decreases n - i,
    {
        assert(all.take(i + 1).drop_last() =~= all.take(i as int));
        let passed_over = match skipped {
            Some(endpoint) => addresses[i].same(endpoint),
            None => false,
        };
        if !passed_over {
            datagrams.push(
                Datagram { to: Endpoint::copy(&addresses[i]), payload: String::from_str(payload) },
            );
        }
        i += 1;
    }
    assert(all.take(n as int) =~= all);
    datagrams
}

/// Decides what to send in answer to the datagram `text`, which came from
/// `sender` to the relay listening at `local`.
pub fn handle_udp_request(
    text: &str,
    sender: &Endpoint,
    local: &Endpoint,
    connections: &Connections,
) -> (datagrams: Vec<Datagram>)
    ensures
        datagram_views(datagrams@) == relayed(text@, sender@, local@, endpoints(connections@)),
{
    match command(text) {
        Command::Ping => {
            let mut datagrams: Vec<Datagram> = Vec::new();
            datagrams.push(Datagram { to: Endpoint::copy(sender), payload: make_bare_line(PONG) });
            datagrams
        },
        Command::VehicleUpdate => {
            let addresses = connections.get_addresses();
            assert(Seq::new(addresses@.len(), |i: int| addresses@[i]@) =~= endpoints(
                connections@,
            ));
            forward(&addresses, text, Some(local))
        },
        _ => {
            let addresses = connections.get_addresses();
            assert(Seq::new(addresses@.len(), |i: int| addresses@[i]@) =~= endpoints(
                connections@,
            ));
            forward(&addresses, text, None)
        },
    }
}

/// What the relay does with the datagram `datagram`: whether it is passed
/// over, refused, or answered as the text it holds.
pub open spec fn relay_step(
    datagram: Seq<u8>,
    sender: EndpointView,
    local: EndpointView,
    addresses: Seq<EndpointView>,
) -> Result<Seq<DatagramView>, RelayError> {
    if datagram.len() < CODE_LEN {
        Ok(Seq::empty())
    } else if !valid_utf8(datagram) {
        Err(RelayError::MalformedDatagram)
    } else {
        Ok(relayed(decode_utf8(datagram), sender, local, addresses))
    }
}

/// Decides what to send in answer to the bytes of one datagram, which came
/// from `sender` to the relay listening at `local`.
///
/// A datagram of three bytes or fewer is passed over: nothing is sent. One
/// that does not hold text is refused. Any other is answered as its code
/// asks.
pub fn udp_loop(datagram: &[u8], sender: &Endpoint, local: &Endpoint, connections: &Connections)
    -> (answer: Result<Vec<Datagram>, RelayError>)
    ensures
        match relay_step(datagram@, sender@, local@, endpoints(connections@)) {
            Ok(datagrams) => answer is Ok && datagram_views(answer->Ok_0@) == datagrams,
            Err(e) => answer is Err && answer->Err_0 == e,
        },
{
    if datagram.len() < CODE_LEN {
        let nothing: Vec<Datagram> = Vec::new();
        return Ok(nothing);
    }
    match text_of(datagram) {
        Some(text) => {
            proof {
                encode_utf8_decode_utf8(text@);
            }
            Ok(handle_udp_request(text, sender, local, connections))
        },
        None => Err(RelayError::MalformedDatagram),
    }
}

} // verus!
