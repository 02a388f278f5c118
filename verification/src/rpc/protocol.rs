//! The byte grammar of the volume-mirroring protocol.
//!
//! One request travels per connection. A request is a two-byte tag, `g:` or
//! `s:`; after `s:` the decimal text of a volume level follows and runs to
//! the end of the stream. The reply to `g:` is the tag `G:` followed by the
//! decimal text of the level, again up to the end of the stream; `s:` is
//! acknowledged by closing the connection. No length is ever sent.

use vstd::prelude::*;

verus! {

/// Number of bytes in a tag.
pub const TAG_LEN: usize = 2;

/// The byte `:` that ends every tag.
pub const TAG_END: u8 = 0x3a;

/// The byte `s`, which asks to set the volume.
pub const TAG_SET: u8 = 0x73;

/// The byte `g`, which asks for the volume.
pub const TAG_GET: u8 = 0x67;

/// The byte `G`, which opens a volume report.
pub const TAG_REPORT: u8 = 0x47;

/// How a peer can break the grammar.
#[derive(Debug, Clone, Copy, PartialEq, Eq, Structural)]
pub enum ProtocolError {
    /// Fewer than two bytes arrived where a tag was due.
    Truncated,
    /// The second byte of a request tag is not `:`.
    MalformedCommand,
    /// The request tag is well formed but names no command.
    InvalidCommand,
    /// A reply does not open with `G:`.
    MalformedResponse,
    /// The text that should be a volume level is no decimal number.
    MalformedPayload,
}

/// The two commands, without their payload.
#[derive(Debug, Clone, Copy, PartialEq, Eq, Structural)]
pub enum CommandKind {
    GetVolume,
    SetVolume,
}

/// A request as it was received: `GetVolume`, or `SetVolume` with the text of the level.
#[derive(Debug, PartialEq, Eq)]
pub enum Command {
    GetVolume,
    SetVolume { payload: Vec<u8> },
}

/// A request as a mathematical value.
pub enum CommandModel {
    GetVolume,
    SetVolume { payload: Seq<u8> },
}

impl View for Command {
    type V = CommandModel;

    open spec fn view(&self) -> CommandModel {
        match self {
            Command::GetVolume => CommandModel::GetVolume,
            Command::SetVolume { payload } => CommandModel::SetVolume { payload: payload@ },
        }
    }
}

/// What a request tag means. The separator is judged first: a tag whose
/// second byte is wrong is malformed whatever its first byte is.
pub open spec fn command_of_tag(first: u8, second: u8) -> Result<CommandKind, ProtocolError> {
    if second != TAG_END {
        Err(ProtocolError::MalformedCommand)
    } else if first == TAG_SET {
        Ok(CommandKind::SetVolume)
    } else if first == TAG_GET {
        Ok(CommandKind::GetVolume)
    } else {
        Err(ProtocolError::InvalidCommand)
    }
}

/// The bytes of a `get` request.
pub open spec fn get_request_bytes() -> Seq<u8> {
    seq![TAG_GET, TAG_END]
}

/// The bytes of a `set` request that carries `payload`.
pub open spec fn set_request_bytes(payload: Seq<u8>) -> Seq<u8> {
    seq![TAG_SET, TAG_END] + payload
}

/// The bytes of a volume report that carries `payload`.
pub open spec fn report_bytes(payload: Seq<u8>) -> Seq<u8> {
    seq![TAG_REPORT, TAG_END] + payload
}

/// What the bytes of one whole request stream mean. After `g:` nothing more
/// is read, so whatever follows it is ignored.
pub open spec fn request_of_bytes(message: Seq<u8>) -> Result<CommandModel, ProtocolError> {
    if message.len() < 2 {
        Err(ProtocolError::Truncated)
    } else {
        match command_of_tag(message[0], message[1]) {
            Err(e) => Err(e),
            Ok(CommandKind::GetVolume) => Ok(CommandModel::GetVolume),
            Ok(CommandKind::SetVolume) => Ok(
                CommandModel::SetVolume { payload: message.subrange(2, message.len() as int) },
            ),
        }
    }
}

/// Whether a reply tag is `G:`.
pub open spec fn is_report_tag(first: u8, second: u8) -> bool {
    first == TAG_REPORT && second == TAG_END
}

/// The payload of the bytes of one whole reply stream.
pub open spec fn payload_of_report(message: Seq<u8>) -> Result<Seq<u8>, ProtocolError> {
    if message.len() < 2 {
        Err(ProtocolError::Truncated)
    } else if !is_report_tag(message[0], message[1]) {
        Err(ProtocolError::MalformedResponse)
    } else {
        Ok(message.subrange(2, message.len() as int))
    }
}

/// Decodes a request tag.
pub fn decode_command_tag(tag: &[u8; 2]) -> (kind: Result<CommandKind, ProtocolError>)
    ensures
        kind == command_of_tag(tag@[0], tag@[1]),
{
    if tag[1] != TAG_END {
        Err(ProtocolError::MalformedCommand)
    } else if tag[0] == TAG_SET {
        Ok(CommandKind::SetVolume)
    } else if tag[0] == TAG_GET {
        Ok(CommandKind::GetVolume)
    } else {
        Err(ProtocolError::InvalidCommand)
    }
}

/// Checks that a reply opens with `G:`.
pub fn check_report_tag(tag: &[u8; 2]) -> (checked: Result<(), ProtocolError>)
    ensures
        checked is Ok <==> is_report_tag(tag@[0], tag@[1]),
        checked is Err ==> checked == Err::<(), ProtocolError>(ProtocolError::MalformedResponse),
{
    if tag[0] == TAG_REPORT && tag[1] == TAG_END {
        Ok(())
    } else {
        Err(ProtocolError::MalformedResponse)
    }
}

/// A tag followed by a payload.
fn tagged(first: u8, payload: &[u8]) -> (message: Vec<u8>)
    ensures
        message@ == seq![first, TAG_END] + payload@,
{
    let mut message: Vec<u8> = Vec::new();
    message.push(first);
    message.push(TAG_END);
    let mut i: usize = 0;
    while i < payload.len()
        invariant
            i <= payload@.len(),
            message@ == seq![first, TAG_END] + payload@.subrange(0, i as int),
        decreases payload@.len() - i,
    {
        message.push(payload[i]);
        i += 1;
    }
    assert(payload@.subrange(0, i as int) == payload@);
    message
}

/// What follows the tag in a message of at least two bytes.
fn after_tag(message: &[u8]) -> (payload: Vec<u8>)
    requires
        message@.len() >= 2,
    ensures
        payload@ == message@.subrange(2, message@.len() as int),
{
    let mut payload: Vec<u8> = Vec::new();
    let mut i: usize = 2;
    while i < message.len()
        invariant
            2 <= i <= message@.len(),
            payload@ == message@.subrange(2, i as int),
        decreases message@.len() - i,
    {
        payload.push(message[i]);
        i += 1;
    }
    payload
}

/// Encodes the request for the current volume: `g:`.
pub fn encode_get_request() -> (message: Vec<u8>)
    ensures
        message@ == get_request_bytes(),
{
    let mut message: Vec<u8> = Vec::new();
    message.push(TAG_GET);
    message.push(TAG_END);
    message
}

/// Encodes the request to set the volume: `s:` and the level's text.
pub fn encode_set_request(payload: &[u8]) -> (message: Vec<u8>)
    ensures
        message@ == set_request_bytes(payload@),
{
    tagged(TAG_SET, payload)
}

/// Encodes a volume report: `G:` and the level's text.
pub fn encode_volume_report(payload: &[u8]) -> (message: Vec<u8>)
    ensures
        message@ == report_bytes(payload@),
{
    tagged(TAG_REPORT, payload)
}

/// Decodes everything one client sent before closing its side.
pub fn decode_request(message: &[u8]) -> (command: Result<Command, ProtocolError>)
    ensures
        match command {
            Ok(c) => request_of_bytes(message@) == Ok::<CommandModel, ProtocolError>(c@),
            Err(e) => request_of_bytes(message@) == Err::<CommandModel, ProtocolError>(e),
        },
{
    if message.len() < 2 {
        return Err(ProtocolError::Truncated);
    }
    let tag: [u8; 2] = [message[0], message[1]];
    match decode_command_tag(&tag) {
        Err(e) => Err(e),
        Ok(CommandKind::GetVolume) => Ok(Command::GetVolume),
        Ok(CommandKind::SetVolume) => Ok(Command::SetVolume { payload: after_tag(message) }),
    }
}

/// Decodes everything the server sent in reply to `g:` and returns the
/// level's text.
pub fn decode_volume_report(message: &[u8]) -> (payload: Result<Vec<u8>, ProtocolError>)
    ensures
        match payload {
            Ok(p) => payload_of_report(message@) == Ok::<Seq<u8>, ProtocolError>(p@),
            Err(e) => payload_of_report(message@) == Err::<Seq<u8>, ProtocolError>(e),
        },
{
    if message.len() < 2 {
        return Err(ProtocolError::Truncated);
    }
    let tag: [u8; 2] = [message[0], message[1]];
    match check_report_tag(&tag) {
        Err(e) => Err(e),
        Ok(()) => Ok(after_tag(message)),
    }
}

/// A `set` request decodes to the payload it was encoded from, whatever the
/// payload is: the text of a level crosses the wire unchanged.
pub proof fn lemma_set_request_round_trip(payload: Seq<u8>)
    ensures
        request_of_bytes(set_request_bytes(payload)) == Ok::<CommandModel, ProtocolError>(
            CommandModel::SetVolume { payload },
        ),
{
    let message = set_request_bytes(payload);
    assert(message.subrange(2, message.len() as int) =~= payload);
}

/// A `get` request decodes to `GetVolume`.
pub proof fn lemma_get_request_round_trip()
    ensures
        request_of_bytes(get_request_bytes()) == Ok::<CommandModel, ProtocolError>(
            CommandModel::GetVolume,
        ),
{
}

/// A volume report decodes to the payload it was encoded from.
pub proof fn lemma_report_round_trip(payload: Seq<u8>)
    ensures
        payload_of_report(report_bytes(payload)) == Ok::<Seq<u8>, ProtocolError>(payload),
{
    let message = report_bytes(payload);
    assert(message.subrange(2, message.len() as int) =~= payload);
}

/// A request is accepted exactly when it opens with `s:` or `g:`.
pub proof fn lemma_request_accepted_iff_known_tag(message: Seq<u8>)
    ensures
        request_of_bytes(message) is Ok <==> message.len() >= 2 && message[1] == TAG_END && (
        message[0] == TAG_SET || message[0] == TAG_GET),
{
}

} // verus!
