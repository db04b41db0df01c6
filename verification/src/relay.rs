//! The host-side relay: per-connection steps and the broadcast fan-out
//! rule.
//!
//! Every accepted connection gets a handler that reads lines from its peer
//! and publishes them on a shared bus as envelopes tagged with the peer's
//! own address, and that writes every received envelope to its peer unless
//! the envelope came from that peer. The functions here fix what each
//! handler publishes and writes; the surrounding loop owns the sockets and
//! the bus.

use vstd::prelude::*;

use crate::SocketEvent;
use crate::bytes::bytes_eq;
use crate::bytes::copy_bytes;

verus! {

/// One unit of broadcast: a line of text and the address of the connection
/// it came from.
#[derive(PartialEq, Eq, Debug, Clone)]
pub struct Envelope {
    pub text: Vec<u8>,
    pub origin: Vec<u8>,
}

/// Mathematical image of an `Envelope`.
pub struct EnvelopeV {
    pub text: Seq<u8>,
    pub origin: Seq<u8>,
}

impl View for Envelope {
    type V = EnvelopeV;

    open spec fn view(&self) -> EnvelopeV {
        EnvelopeV { text: self.text@, origin: self.origin@ }
    }
}

/// What a subscriber with address `peer` receives from an envelope: the
/// text verbatim, unless the envelope is the peer's own.
pub open spec fn delivery(env: EnvelopeV, peer: Seq<u8>) -> Option<Seq<u8>> {
    if peer == env.origin {
        None
    } else {
        Some(env.text)
    }
}

/// What a handler does with one socket event: a full line is published as
/// an envelope under the handler's own origin address, a clean end of
/// stream closes the connection, and a read error fails the handler.
#[derive(PartialEq, Eq, Debug, Clone)]
pub enum HandlerReadStep {
    Publish(Envelope),
    Close,
    Fail,
}

/// Apply one socket event inside a connection handler.
pub fn handler_read_step(origin: &[u8], ev: SocketEvent) -> (r: HandlerReadStep)
    ensures
        ev matches SocketEvent::Line(t) ==> r matches HandlerReadStep::Publish(e) && e.text@ == t@
            && e.origin@ == origin@,
        ev is Closed ==> r == HandlerReadStep::Close,
        ev is ReadError ==> r == HandlerReadStep::Fail,
{
    match ev {
        SocketEvent::Line(t) => HandlerReadStep::Publish(
            Envelope { text: t, origin: copy_bytes(origin) },
        ),
        SocketEvent::Closed => HandlerReadStep::Close,
        SocketEvent::ReadError => HandlerReadStep::Fail,
    }
}

/// Apply one received envelope inside the handler whose peer has address
/// `self_origin`: the bytes to write to the peer, or nothing for the
/// peer's own envelope.
pub fn handler_envelope_step(self_origin: &[u8], env: &Envelope) -> (r: Option<Vec<u8>>)
    ensures
        match r {
            Some(t) => delivery(env@, self_origin@) == Some(t@),
            None => delivery(env@, self_origin@) is None,
        },
{
    if bytes_eq(self_origin, env.origin.as_slice()) {
        None
    } else {
        Some(copy_bytes(env.text.as_slice()))
    }
}

/// The view of one delivery result.
pub open spec fn delivery_view(o: Option<Vec<u8>>) -> Option<Seq<u8>> {
    match o {
        Some(v) => Some(v@),
        None => None,
    }
}

/// What one envelope delivers to a whole set of subscribers, in order:
/// the bus hands the envelope to every handler, and each handler keeps or
/// drops it by the fan-out rule.
pub fn fanout(peers: &Vec<Vec<u8>>, env: &Envelope) -> (r: Vec<Option<Vec<u8>>>)
    ensures
        r@.len() == peers@.len(),
        forall|j: int| 0 <= j < peers@.len() ==> delivery_view(#[trigger] r@[j]) == delivery(
            env@,
            peers@[j]@,
        ),
{
    let mut out: Vec<Option<Vec<u8>>> = Vec::new();
    let mut i: usize = 0;
    while i < peers.len()
        invariant
            i <= peers@.len(),
            out@.len() == i,
            forall|j: int| 0 <= j < i ==> delivery_view(#[trigger] out@[j]) == delivery(
                env@,
                peers@[j]@,
            ),
        decreases peers.len() - i,
    {
        out.push(handler_envelope_step(peers[i].as_slice(), env));
        i += 1;
    }
    out
}

/// A line published by one peer is delivered verbatim to every other
/// subscribed peer, and never delivered back to the peer it came from.
pub proof fn lemma_relay_excludes_sender(env: EnvelopeV, peers: Seq<Seq<u8>>)
    ensures
        forall|j: int|
            0 <= j < peers.len() && peers[j] != env.origin ==> delivery(env, #[trigger] peers[j])
                == Some(env.text),
        forall|j: int|
            0 <= j < peers.len() && peers[j] == env.origin ==> delivery(env, #[trigger] peers[j])
                is None,
{
}

} // verus!
