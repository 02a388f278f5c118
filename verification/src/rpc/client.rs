//! The requesting side of the protocol.
//!
//! A client opens one connection, sends one request and, after `g:`, reads
//! one reply. It is written as a machine: [`AudioClient::connect`],
//! [`AudioClient::set_remote_volume`] and [`AudioClient::get_remote_volume`]
//! name the first operation of what they begin, and [`AudioClient::step`] is
//! handed what the last operation brought and names the next one.

use vstd::prelude::*;
use vstd::string::*;
use vstd::utf8::encode_utf8;
use crate::controllers::volume::VolumeLevel;
use crate::rpc::protocol::{
    ProtocolError, check_report_tag, encode_get_request, encode_set_request, get_request_bytes,
    is_report_tag, set_request_bytes,
};

verus! {

/// The bytes of `.local`, the suffix of the names that are resolved on the
/// local network.
pub open spec fn local_suffix() -> Seq<u8> {
    seq![0x2eu8, 0x6cu8, 0x6fu8, 0x63u8, 0x61u8, 0x6cu8]
}

/// Whether a host name, given as its bytes, ends in `.local`.
pub open spec fn is_local_name(host: Seq<u8>) -> bool {
    host.len() >= 6 && host.skip(host.len() - 6) == local_suffix()
}

/// The kind of a resolved address.
#[derive(Debug, Clone, Copy, PartialEq, Eq, Structural)]
pub enum AddressFamily {
    V4,
    V6,
}

/// Where to connect.
#[derive(Debug, Clone, Copy, PartialEq, Eq, Structural)]
pub enum ConnectTarget {
    /// To the host by its name, resolved as the system does by default.
    ByName,
    /// To the resolved address at this place among those that the lookup of
    /// the name gave.
    Resolved { index: usize },
}

/// Whether `i` is the place of the first IPv4 address among `families`.
pub open spec fn is_first_v4(families: Seq<AddressFamily>, i: int) -> bool {
    &&& 0 <= i < families.len()
    &&& families[i] == AddressFamily::V4
    &&& forall|j: int| 0 <= j < i ==> #[trigger] families[j] != AddressFamily::V4
}

/// The place of the first IPv4 address, if there is one.
pub open spec fn first_v4_spec(families: Seq<AddressFamily>) -> Option<int> {
    if exists|i: int| is_first_v4(families, i) {
        Some(choose|i: int| is_first_v4(families, i))
    } else {
        None
    }
}

/// Where to connect, for a host and the kinds of the addresses that its name
/// resolved to, in the order in which the lookup gave them: a `.local` name
/// goes by its first IPv4 address where it has one; every other name, and a
/// `.local` name without an IPv4 address, goes by the name.
pub open spec fn connect_target_spec(host: Seq<u8>, families: Seq<AddressFamily>) -> ConnectTarget {
    if is_local_name(host) {
        match first_v4_spec(families) {
            Some(i) => ConnectTarget::Resolved { index: i as usize },
            None => ConnectTarget::ByName,
        }
    } else {
        ConnectTarget::ByName
    }
}

/// There is one first IPv4 address at most.
pub proof fn lemma_first_v4_unique(families: Seq<AddressFamily>, i: int)
    requires
        is_first_v4(families, i),
    ensures
        first_v4_spec(families) == Some(i),
{
    let k = choose|k: int| is_first_v4(families, k);
    if k < i {
        assert(families[k] != AddressFamily::V4);
    } else if i < k {
        assert(families[i] != AddressFamily::V4);
    }
}

/// A `.local` name that resolved to an IPv4 address, among others of any
/// kind and in any order, is connected to by an IPv4 address.
pub proof fn lemma_local_name_prefers_v4(host: Seq<u8>, families: Seq<AddressFamily>, v4: int)
    requires
        is_local_name(host),
        0 <= v4 < families.len(),
        families[v4] == AddressFamily::V4,
        families.len() <= usize::MAX,
    ensures
        connect_target_spec(host, families) matches ConnectTarget::Resolved { index }
            && index < families.len() && families[index as int] == AddressFamily::V4,
{
    lemma_some_v4_has_first(families, v4);
    let i = choose|i: int| is_first_v4(families, i);
    lemma_first_v4_unique(families, i);
}

/// Where an IPv4 address stands at `v4`, a first one stands at or before it.
proof fn lemma_some_v4_has_first(families: Seq<AddressFamily>, v4: int)
    requires
        0 <= v4 < families.len(),
        families[v4] == AddressFamily::V4,
    ensures
        exists|i: int| is_first_v4(families, i),
    decreases v4,
{
    if exists|j: int| 0 <= j < v4 && families[j] == AddressFamily::V4 {
        let j = choose|j: int| 0 <= j < v4 && families[j] == AddressFamily::V4;
        lemma_some_v4_has_first(families, j);
    } else {
        assert(is_first_v4(families, v4));
    }
}

/// Finds the first IPv4 address.
pub fn first_v4(families: &Vec<AddressFamily>) -> (found: Option<usize>)
    ensures
        match found {
            Some(i) => is_first_v4(families@, i as int) && first_v4_spec(families@) == Some(
                i as int,
            ),
            None => first_v4_spec(families@) is None && forall|j: int|
                0 <= j < families@.len() ==> #[trigger] families@[j] != AddressFamily::V4,
        },
{
    let mut i: usize = 0;
    while i < families.len()
        invariant
            i <= families@.len(),
            forall|j: int| 0 <= j < i ==> #[trigger] families@[j] != AddressFamily::V4,
        decreases families@.len() - i,
    {
        match families[i] {
            AddressFamily::V4 => {
                proof {
                    lemma_first_v4_unique(families@, i as int);
                }
                return Some(i);
            },
            AddressFamily::V6 => {},
        }
        i += 1;
    }
    None
}

/// Whether a host name ends in `.local`.
pub fn ends_in_local(host: &[u8]) -> (local: bool)
    ensures
        local == is_local_name(host@),
{
    let n = host.len();
    if n < 6 {
        return false;
    }
    let start = n - 6;
    let local = host[start] == 0x2e && host[start + 1] == 0x6c && host[start + 2] == 0x6f
        && host[start + 3] == 0x63 && host[start + 4] == 0x61 && host[start + 5] == 0x6c;
    proof {
        let tail = host@.skip(start as int);
        assert(tail.len() == 6);
        assert(tail[0] == host@[start as int]);
        assert(tail[1] == host@[start + 1]);
        assert(tail[2] == host@[start + 2]);
        assert(tail[3] == host@[start + 3]);
        assert(tail[4] == host@[start + 4]);
        assert(tail[5] == host@[start + 5]);
        if local {
            assert(tail =~= local_suffix());
        }
    }
    local
}

/// What a client sends: the bytes, and whether it closes its sending side
/// after them.
#[derive(Debug, PartialEq, Eq)]
pub struct Outgoing {
    pub message: Vec<u8>,
    pub close_after: bool,
}

/// Why an exchange with the server did not succeed.
#[derive(Debug, Clone, Copy, PartialEq, Eq, Structural)]
pub enum ClientError {
    /// The server broke the grammar.
    Protocol(ProtocolError),
    /// The lookup, the connection, a read or a write failed.
    Connection,
    /// The client was asked for something that its connection is not ready
    /// for, or was handed something other than what the pending operation
    /// brings.
    OutOfSequence,
}

/// How an exchange ended: with the level that the server reported, with
/// nothing to report after a request to set the volume, or with an error.
pub type Outcome = Result<Option<VolumeLevel>, ClientError>;

/// The operation that the client asks for next.
#[derive(Debug, PartialEq, Eq)]
pub enum ClientAction {
    /// Look up the addresses of the host's name.
    Resolve,
    /// Connect to the host's port, by name or at a resolved address.
    Connect { target: ConnectTarget },
    /// Nothing: the connection stands and awaits its one request.
    AwaitRequest,
    /// Write the request.
    Send { request: Outgoing },
    /// Read the two bytes of the reply's tag.
    ReadTag,
    /// Read up to the end of the stream and parse what was read as a level.
    ReadLevel,
    /// Make no further use of the connection: the exchange has ended.
    Finish { outcome: Outcome },
}

/// What an operation brought.
#[derive(Debug, PartialEq, Eq)]
pub enum ClientEvent {
    /// The kinds of the addresses that the name resolved to, in the
    /// lookup's order.
    Resolved(Vec<AddressFamily>),
    /// The connection stands.
    Connected,
    /// The request was written.
    Sent,
    /// The two bytes of the reply's tag.
    Tag([u8; 2]),
    /// The level that the reply's text denotes, or `None` where it is no
    /// number.
    Level(Option<VolumeLevel>),
    /// The operation failed.
    Failed,
}

/// What the client is waiting for.
#[derive(Debug, Clone, Copy, PartialEq, Eq)]
pub enum ClientPhase {
    Created,
    Resolving,
    Connecting,
    Ready,
    SendingSet,
    SendingGet,
    ReadingTag,
    ReadingLevel,
    Finished { outcome: Outcome },
}

/// Ending an exchange: the phase and the action that say so.
pub open spec fn finish_spec(outcome: Outcome) -> (ClientPhase, ClientAction) {
    (ClientPhase::Finished { outcome }, ClientAction::Finish { outcome })
}

/// The first operation of a client for the host with these bytes: a
/// `.local` name is looked up, every other name is connected to as it is.
pub open spec fn connect_spec(host: Seq<u8>, phase: ClientPhase) -> (ClientPhase, ClientAction) {
    match phase {
        ClientPhase::Created => if is_local_name(host) {
            (ClientPhase::Resolving, ClientAction::Resolve)
        } else {
            (ClientPhase::Connecting, ClientAction::Connect { target: ConnectTarget::ByName })
        },
        _ => finish_spec(Err(ClientError::OutOfSequence)),
    }
}

/// The decision on the reply's tag: the level is read only after `G:`.
pub open spec fn reply_spec(tag: [u8; 2]) -> (ClientPhase, ClientAction) {
    if is_report_tag(tag@[0], tag@[1]) {
        (ClientPhase::ReadingLevel, ClientAction::ReadLevel)
    } else {
        finish_spec(Err(ClientError::Protocol(ProtocolError::MalformedResponse)))
    }
}

/// One decision of a client of the host with these bytes: the phase that
/// follows `phase` when `event` arrives, and the operation to perform next.
pub open spec fn step_spec(host: Seq<u8>, phase: ClientPhase, event: ClientEvent) -> (
    ClientPhase,
    ClientAction,
) {
    match phase {
        ClientPhase::Finished { outcome } => finish_spec(outcome),
        ClientPhase::Created | ClientPhase::Ready => finish_spec(Err(ClientError::OutOfSequence)),
        _ => match event {
            ClientEvent::Failed => finish_spec(Err(ClientError::Connection)),
            _ => match (phase, event) {
                (ClientPhase::Resolving, ClientEvent::Resolved(families)) => (
                    ClientPhase::Connecting,
                    ClientAction::Connect { target: connect_target_spec(host, families@) },
                ),
                (ClientPhase::Connecting, ClientEvent::Connected) => (
                    ClientPhase::Ready,
                    ClientAction::AwaitRequest,
                ),
                (ClientPhase::SendingSet, ClientEvent::Sent) => finish_spec(Ok(None)),
                (ClientPhase::SendingGet, ClientEvent::Sent) => (
                    ClientPhase::ReadingTag,
                    ClientAction::ReadTag,
                ),
                (ClientPhase::ReadingTag, ClientEvent::Tag(tag)) => reply_spec(tag),
                (ClientPhase::ReadingLevel, ClientEvent::Level(Some(level))) => finish_spec(
                    Ok(Some(level)),
                ),
                (ClientPhase::ReadingLevel, ClientEvent::Level(None)) => finish_spec(
                    Err(ClientError::Protocol(ProtocolError::MalformedPayload)),
                ),
                _ => finish_spec(Err(ClientError::OutOfSequence)),
            },
        },
    }
}

/// A whole run: the phase reached from `phase` when `events` arrive one
/// after the other, and the operations asked for on the way, one per event.
pub open spec fn run_spec(host: Seq<u8>, phase: ClientPhase, events: Seq<ClientEvent>) -> (
    ClientPhase,
    Seq<ClientAction>,
)
    decreases events.len(),
{
    if events.len() == 0 {
        (phase, Seq::empty())
    } else {
        let first = step_spec(host, phase, events[0]);
        let rest = run_spec(host, first.0, events.drop_first());
        (rest.0, seq![first.1] + rest.1)
    }
}

/// A client of one volume server, good for one connection and one request.
#[derive(Debug)]
pub struct AudioClient {
    remote_host: String,
    remote_port: u16,
    phase: ClientPhase,
}

/// A client as a mathematical value: the host's name as text and as bytes,
/// the port, and what the client is waiting for.
pub struct ClientModel {
    pub host: Seq<char>,
    pub host_bytes: Seq<u8>,
    pub port: u16,
    pub phase: ClientPhase,
}

impl View for AudioClient {
    type V = ClientModel;

    closed spec fn view(&self) -> ClientModel {
        ClientModel {
            host: self.remote_host@,
            host_bytes: encode_utf8(self.remote_host@),
            port: self.remote_port,
            phase: self.phase,
        }
    }
}

fn finish(outcome: Outcome) -> (ended: (ClientPhase, ClientAction))
    ensures
        ended == finish_spec(outcome),
{
    (ClientPhase::Finished { outcome }, ClientAction::Finish { outcome })
}

fn reply(tag: &[u8; 2]) -> (decision: (ClientPhase, ClientAction))
    ensures
        decision == reply_spec(*tag),
{
    match check_report_tag(tag) {
        Ok(()) => (ClientPhase::ReadingLevel, ClientAction::ReadLevel),
        Err(e) => finish(Err(ClientError::Protocol(e))),
    }
}

fn decide(host: &str, phase: ClientPhase, event: ClientEvent) -> (decision: (
    ClientPhase,
    ClientAction,
))
    ensures
        decision == step_spec(encode_utf8(host@), phase, event),
{
    match phase {
        ClientPhase::Finished { outcome } => finish(outcome),
        ClientPhase::Created | ClientPhase::Ready => finish(Err(ClientError::OutOfSequence)),
        _ => match event {
            ClientEvent::Failed => finish(Err(ClientError::Connection)),
            _ => match (phase, event) {
                (ClientPhase::Resolving, ClientEvent::Resolved(families)) => (
                    ClientPhase::Connecting,
                    ClientAction::Connect { target: connect_target(host.as_bytes(), &families) },
                ),
                (ClientPhase::Connecting, ClientEvent::Connected) => (
                    ClientPhase::Ready,
                    ClientAction::AwaitRequest,
                ),
                (ClientPhase::SendingSet, ClientEvent::Sent) => finish(Ok(None)),
                (ClientPhase::SendingGet, ClientEvent::Sent) => (
                    ClientPhase::ReadingTag,
                    ClientAction::ReadTag,
                ),
                (ClientPhase::ReadingTag, ClientEvent::Tag(tag)) => reply(&tag),
                (ClientPhase::ReadingLevel, ClientEvent::Level(Some(level))) => finish(
                    Ok(Some(level)),
                ),
                (ClientPhase::ReadingLevel, ClientEvent::Level(None)) => finish(
                    Err(ClientError::Protocol(ProtocolError::MalformedPayload)),
                ),
                _ => finish(Err(ClientError::OutOfSequence)),
            },
        },
    }
}

/// Decides where to connect, given the bytes of the host's name and the
/// kinds of the addresses that the name resolved to, in the lookup's order.
pub fn connect_target(host: &[u8], families: &Vec<AddressFamily>) -> (target: ConnectTarget)
    ensures
        target == connect_target_spec(host@, families@),
        target matches ConnectTarget::Resolved { index } ==> is_local_name(host@) && is_first_v4(
            families@,
            index as int,
        ),
        target is ByName ==> !is_local_name(host@) || forall|j: int|
            0 <= j < families@.len() ==> #[trigger] families@[j] != AddressFamily::V4,
{
    if ends_in_local(host) {
        match first_v4(families) {
            Some(index) => ConnectTarget::Resolved { index },
            None => ConnectTarget::ByName,
        }
    } else {
        ConnectTarget::ByName
    }
}

impl AudioClient {
    /// A client of the server at the given host and port, not connected yet.
    pub fn new(remote_host: String, remote_port: u16) -> (client: AudioClient)
        ensures
            client@.host == remote_host@,
            client@.host_bytes == encode_utf8(remote_host@),
            client@.port == remote_port,
            client@.phase == ClientPhase::Created,
    {
        AudioClient { remote_host, remote_port, phase: ClientPhase::Created }
    }

    /// The server's host name.
    pub fn remote_host(&self) -> (host: &str)
        ensures
            host@ == self@.host,
    {
        self.remote_host.as_str()
    }

    /// The server's port.
    pub fn remote_port(&self) -> (port: u16)
        ensures
            port == self@.port,
    {
        self.remote_port
    }

    /// What the client is waiting for.
    pub fn phase(&self) -> (phase: ClientPhase)
        ensures
            phase == self@.phase,
    {
        self.phase
    }

    /// Whether the host's name is to be looked up before connecting, which
    /// is so for names that end in `.local`.
    pub fn resolves_first(&self) -> (local: bool)
        ensures
            local == is_local_name(self@.host_bytes),
    {
        ends_in_local(self.remote_host.as_str().as_bytes())
    }

    /// Begins to connect, as [`connect_spec`] says. A client connects once.
    pub fn connect(&mut self) -> (action: ClientAction)
        ensures
            final(self)@.host == old(self)@.host,
            final(self)@.host_bytes == old(self)@.host_bytes,
            final(self)@.port == old(self)@.port,
            (final(self)@.phase, action) == connect_spec(old(self)@.host_bytes, old(self)@.phase),
    {
        let (next, action) = match self.phase {
            ClientPhase::Created => if self.resolves_first() {
                (ClientPhase::Resolving, ClientAction::Resolve)
            } else {
                (ClientPhase::Connecting, ClientAction::Connect { target: ConnectTarget::ByName })
            },
            _ => finish(Err(ClientError::OutOfSequence)),
        };
        self.phase = next;
        action
    }

    /// Begins the request that asks the server to set its volume to the
    /// level whose decimal text is `level_text`. On a connection that awaits
    /// its request, the bytes to send are `s:` and the text, and the sending
    /// side of the stream is closed after them: the end of the stream is the
    /// end of the text. On any other, nothing is sent and the exchange ends
    /// with `OutOfSequence`.
    pub fn set_remote_volume(&mut self, level_text: &[u8]) -> (action: ClientAction)
        ensures
            final(self)@.host == old(self)@.host,
            final(self)@.host_bytes == old(self)@.host_bytes,
            final(self)@.port == old(self)@.port,
            old(self)@.phase == ClientPhase::Ready ==> ({
                &&& final(self)@.phase == ClientPhase::SendingSet
                &&& action matches ClientAction::Send { request }
                &&& request.message@ == set_request_bytes(level_text@)
                &&& request.close_after
            }),
            old(self)@.phase != ClientPhase::Ready ==> (final(self)@.phase, action) == finish_spec(
                Err(ClientError::OutOfSequence),
            ),
    {
        match self.phase {
            ClientPhase::Ready => {
                self.phase = ClientPhase::SendingSet;
                ClientAction::Send {
                    request: Outgoing { message: encode_set_request(level_text), close_after: true },
                }
            },
            _ => {
                let (next, action) = finish(Err(ClientError::OutOfSequence));
                self.phase = next;
                action
            },
        }
    }

    /// Begins the request that asks the server for its volume. On a
    /// connection that awaits its request, the bytes to send are `g:`, and
    /// the stream stays open after them, for the reply. On any other,
    /// nothing is sent and the exchange ends with `OutOfSequence`.
    pub fn get_remote_volume(&mut self) -> (action: ClientAction)
        ensures
            final(self)@.host == old(self)@.host,
            final(self)@.host_bytes == old(self)@.host_bytes,
            final(self)@.port == old(self)@.port,
            old(self)@.phase == ClientPhase::Ready ==> ({
                &&& final(self)@.phase == ClientPhase::SendingGet
                &&& action matches ClientAction::Send { request }
                &&& request.message@ == get_request_bytes()
                &&& !request.close_after
            }),
            old(self)@.phase != ClientPhase::Ready ==> (final(self)@.phase, action) == finish_spec(
                Err(ClientError::OutOfSequence),
            ),
    {
        match self.phase {
            ClientPhase::Ready => {
                self.phase = ClientPhase::SendingGet;
                ClientAction::Send {
                    request: Outgoing { message: encode_get_request(), close_after: false },
                }
            },
            _ => {
                let (next, action) = finish(Err(ClientError::OutOfSequence));
                self.phase = next;
                action
            },
        }
    }

    /// Takes what the last operation brought and decides on the next, as
    /// [`step_spec`] says.
    pub fn step(&mut self, event: ClientEvent) -> (action: ClientAction)
        ensures
            final(self)@.host == old(self)@.host,
            final(self)@.host_bytes == old(self)@.host_bytes,
            final(self)@.port == old(self)@.port,
            (final(self)@.phase, action) == step_spec(
                old(self)@.host_bytes,
                old(self)@.phase,
                event,
            ),
    {
        let (next, action) = decide(self.remote_host.as_str(), self.phase, event);
        self.phase = next;
        action
    }
}

/// A finished exchange stays finished: whatever arrives, the client asks for
/// no further operation and keeps its outcome.
pub proof fn lemma_finished_stays_finished(
    host: Seq<u8>,
    outcome: Outcome,
    events: Seq<ClientEvent>,
)
    ensures
        run_spec(host, ClientPhase::Finished { outcome }, events).0 == (ClientPhase::Finished {
            outcome,
        }),
        run_spec(host, ClientPhase::Finished { outcome }, events).1.len() == events.len(),
        forall|k: int|
            0 <= k < events.len() ==> #[trigger] run_spec(
                host,
                ClientPhase::Finished { outcome },
                events,
            ).1[k] == (ClientAction::Finish { outcome }),
    decreases events.len(),
{
    if events.len() > 0 {
        lemma_finished_stays_finished(host, outcome, events.drop_first());
    }
}

/// A reply that does not open with `G:` ends the exchange with a protocol
/// error: nothing more is read, and no level is returned.
pub proof fn lemma_unknown_reply_is_rejected(
    host: Seq<u8>,
    tag: [u8; 2],
    events: Seq<ClientEvent>,
)
    requires
        events.len() >= 1,
        events[0] == ClientEvent::Tag(tag),
        !is_report_tag(tag@[0], tag@[1]),
    ensures
        forall|k: int|
            0 <= k < events.len() ==> #[trigger] run_spec(host, ClientPhase::ReadingTag, events).1[k]
                == (ClientAction::Finish {
                outcome: Err(ClientError::Protocol(ProtocolError::MalformedResponse)),
            }),
{
    lemma_finished_stays_finished(
        host,
        Err(ClientError::Protocol(ProtocolError::MalformedResponse)),
        events.drop_first(),
    );
}

/// Where the request for the volume is written, the reply opens with `G:`
/// and its text denotes a level, the client reads the tag, then the level,
/// and returns exactly that level.
pub proof fn lemma_reported_level_is_returned(host: Seq<u8>, tag: [u8; 2], level: VolumeLevel)
    requires
        is_report_tag(tag@[0], tag@[1]),
    ensures
        run_spec(
            host,
            ClientPhase::SendingGet,
            seq![ClientEvent::Sent, ClientEvent::Tag(tag), ClientEvent::Level(Some(level))],
        ) == (
            ClientPhase::Finished { outcome: Ok(Some(level)) },
            seq![
                ClientAction::ReadTag,
                ClientAction::ReadLevel,
                ClientAction::Finish { outcome: Ok(Some(level)) },
            ],
        ),
{
    let events = seq![ClientEvent::Sent, ClientEvent::Tag(tag), ClientEvent::Level(Some(level))];
    let e1 = events.drop_first();
    let e2 = e1.drop_first();
    let e3 = e2.drop_first();
    assert(e3.len() == 0);
    let done = ClientPhase::Finished { outcome: Ok(Some(level)) };
    let r3 = run_spec(host, done, e3);
    let r2 = run_spec(host, ClientPhase::ReadingLevel, e2);
    let r1 = run_spec(host, ClientPhase::ReadingTag, e1);
    let r0 = run_spec(host, ClientPhase::SendingGet, events);
    assert(r3.1 =~= Seq::<ClientAction>::empty());
    assert(r2.1 =~= seq![ClientAction::Finish { outcome: Ok(Some(level)) }]);
    assert(r1.1 =~= seq![ClientAction::ReadLevel] + r2.1);
    assert(r0.1 =~= seq![ClientAction::ReadTag] + r1.1);
    assert(r0.1 =~= seq![
        ClientAction::ReadTag,
        ClientAction::ReadLevel,
        ClientAction::Finish { outcome: Ok(Some(level)) },
    ]);
}

} // verus!
