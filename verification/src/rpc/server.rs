//! The serving side of the protocol.
//!
//! The server answers one connection at a time and one request per
//! connection. It is written as a machine: [`AudioServer::step`] is handed
//! what the last operation brought and names the next one. A tag that names
//! no command, a payload that is no number, a failed read or write and a
//! failed backend each halt the server for good: it accepts nothing after.

use vstd::prelude::*;
use crate::controllers::volume::VolumeLevel;
use crate::rpc::protocol::{
    CommandKind, ProtocolError, TAG_END, TAG_GET, TAG_SET, command_of_tag, decode_command_tag,
};

verus! {

/// The address that stands for every interface of the machine, on which the
/// server listens.
pub const LISTEN_HOST: &'static str = "0.0.0.0";

/// What went wrong outside the library.
#[derive(Debug, Clone, Copy, PartialEq, Eq, Structural)]
pub enum Failure {
    /// The listener or a connection failed.
    Connection,
    /// The volume or the power backend failed.
    Backend,
}

/// Why the server halted.
#[derive(Debug, Clone, Copy, PartialEq, Eq, Structural)]
pub enum ServerError {
    /// A client broke the grammar.
    Protocol(ProtocolError),
    /// The listener or a connection failed.
    Connection,
    /// The volume or the power backend failed.
    Backend,
    /// The server was handed something other than what the pending operation
    /// brings.
    OutOfSequence,
}

/// The operation that the server asks for next.
#[derive(Debug, Clone, Copy, PartialEq, Eq, Structural)]
pub enum ServerAction {
    /// Open the volume and power backends and listen on this port, on every
    /// interface.
    Listen { port: u16 },
    /// Drop the connection at hand, if any, and accept the next.
    Accept,
    /// Read the two bytes of the tag.
    ReadTag,
    /// Read up to the end of the stream and parse what was read as a level.
    ReadLevel,
    /// Set the local master volume.
    SetVolume { level: VolumeLevel },
    /// End display standby.
    WakeScreen,
    /// Read the local master volume.
    GetVolume,
    /// Write the report of this level.
    SendReport { level: VolumeLevel },
    /// Stop serving.
    Halt { error: ServerError },
}

/// What an operation brought.
#[derive(Debug, Clone, Copy, PartialEq, Eq)]
pub enum ServerEvent {
    /// The backends are open and the listener is bound.
    Listening,
    /// A connection was accepted.
    Accepted,
    /// The two bytes of the tag.
    Tag([u8; 2]),
    /// The level that the payload denotes, or `None` where it is no number.
    Level(Option<VolumeLevel>),
    /// The local master volume.
    Volume(VolumeLevel),
    /// The volume was set, the screen woken or the report written.
    Done,
    /// The operation failed.
    Failed(Failure),
}

/// What the server is waiting for.
#[derive(Debug, Clone, Copy, PartialEq, Eq, Structural)]
pub enum ServerPhase {
    Created,
    Starting,
    Accepting,
    ReadingTag,
    ReadingLevel,
    SettingVolume,
    WakingScreen,
    GettingVolume,
    SendingReport,
    Halted { error: ServerError },
}

/// Halting: the phase and the action that say so.
pub open spec fn halt_spec(error: ServerError) -> (ServerPhase, ServerAction) {
    (ServerPhase::Halted { error }, ServerAction::Halt { error })
}

/// The error that a failed operation halts the server with.
pub open spec fn error_of_failure(failure: Failure) -> ServerError {
    match failure {
        Failure::Connection => ServerError::Connection,
        Failure::Backend => ServerError::Backend,
    }
}

/// The decision on a tag: read the level after `s:`, read the local volume
/// after `g:`, halt on anything else.
pub open spec fn dispatch_spec(tag: [u8; 2]) -> (ServerPhase, ServerAction) {
    match command_of_tag(tag@[0], tag@[1]) {
        Ok(CommandKind::SetVolume) => (ServerPhase::ReadingLevel, ServerAction::ReadLevel),
        Ok(CommandKind::GetVolume) => (ServerPhase::GettingVolume, ServerAction::GetVolume),
        Err(e) => halt_spec(ServerError::Protocol(e)),
    }
}

/// One decision of the server: the phase that follows `phase` when `event`
/// arrives, and the operation to perform next.
pub open spec fn step_spec(phase: ServerPhase, event: ServerEvent) -> (ServerPhase, ServerAction) {
    match phase {
        ServerPhase::Halted { error } => halt_spec(error),
        ServerPhase::Created => halt_spec(ServerError::OutOfSequence),
        _ => match event {
            ServerEvent::Failed(failure) => halt_spec(error_of_failure(failure)),
            _ => match (phase, event) {
                (ServerPhase::Starting, ServerEvent::Listening) => (
                    ServerPhase::Accepting,
                    ServerAction::Accept,
                ),
                (ServerPhase::Accepting, ServerEvent::Accepted) => (
                    ServerPhase::ReadingTag,
                    ServerAction::ReadTag,
                ),
                (ServerPhase::ReadingTag, ServerEvent::Tag(tag)) => dispatch_spec(tag),
                (ServerPhase::ReadingLevel, ServerEvent::Level(Some(level))) => (
                    ServerPhase::SettingVolume,
                    ServerAction::SetVolume { level },
                ),
                (ServerPhase::ReadingLevel, ServerEvent::Level(None)) => halt_spec(
                    ServerError::Protocol(ProtocolError::MalformedPayload),
                ),
                (ServerPhase::SettingVolume, ServerEvent::Done) => (
                    ServerPhase::WakingScreen,
                    ServerAction::WakeScreen,
                ),
                (ServerPhase::WakingScreen, ServerEvent::Done) => (
                    ServerPhase::Accepting,
                    ServerAction::Accept,
                ),
                (ServerPhase::GettingVolume, ServerEvent::Volume(level)) => (
                    ServerPhase::SendingReport,
                    ServerAction::SendReport { level },
                ),
                (ServerPhase::SendingReport, ServerEvent::Done) => (
                    ServerPhase::Accepting,
                    ServerAction::Accept,
                ),
                _ => halt_spec(ServerError::OutOfSequence),
            },
        },
    }
}

/// A whole run: the phase reached from `phase` when `events` arrive one
/// after the other, and the operations asked for on the way, one per event.
pub open spec fn run_spec(phase: ServerPhase, events: Seq<ServerEvent>) -> (
    ServerPhase,
    Seq<ServerAction>,
)
    decreases events.len(),
{
    if events.len() == 0 {
        (phase, Seq::empty())
    } else {
        let first = step_spec(phase, events[0]);
        let rest = run_spec(first.0, events.drop_first());
        (rest.0, seq![first.1] + rest.1)
    }
}

/// A volume server: the port it listens on and what it is waiting for.
#[derive(Debug)]
pub struct AudioServer {
    port: u16,
    phase: ServerPhase,
}

/// A server as a mathematical value.
pub struct ServerModel {
    pub port: u16,
    pub phase: ServerPhase,
}

impl View for AudioServer {
    type V = ServerModel;

    closed spec fn view(&self) -> ServerModel {
        ServerModel { port: self.port, phase: self.phase }
    }
}

fn halt(error: ServerError) -> (halted: (ServerPhase, ServerAction))
    ensures
        halted == halt_spec(error),
{
    (ServerPhase::Halted { error }, ServerAction::Halt { error })
}

fn dispatch(tag: &[u8; 2]) -> (decision: (ServerPhase, ServerAction))
    ensures
        decision == dispatch_spec(*tag),
{
    match decode_command_tag(tag) {
        Ok(CommandKind::SetVolume) => (ServerPhase::ReadingLevel, ServerAction::ReadLevel),
        Ok(CommandKind::GetVolume) => (ServerPhase::GettingVolume, ServerAction::GetVolume),
        Err(e) => halt(ServerError::Protocol(e)),
    }
}

fn decide(phase: ServerPhase, event: ServerEvent) -> (decision: (ServerPhase, ServerAction))
    ensures
        decision == step_spec(phase, event),
{
    match phase {
        ServerPhase::Halted { error } => halt(error),
        ServerPhase::Created => halt(ServerError::OutOfSequence),
        _ => match event {
            ServerEvent::Failed(Failure::Connection) => halt(ServerError::Connection),
            ServerEvent::Failed(Failure::Backend) => halt(ServerError::Backend),
            _ => match (phase, event) {
                (ServerPhase::Starting, ServerEvent::Listening) => (
                    ServerPhase::Accepting,
                    ServerAction::Accept,
                ),
                (ServerPhase::Accepting, ServerEvent::Accepted) => (
                    ServerPhase::ReadingTag,
                    ServerAction::ReadTag,
                ),
                (ServerPhase::ReadingTag, ServerEvent::Tag(tag)) => dispatch(&tag),
                (ServerPhase::ReadingLevel, ServerEvent::Level(Some(level))) => (
                    ServerPhase::SettingVolume,
                    ServerAction::SetVolume { level },
                ),
                (ServerPhase::ReadingLevel, ServerEvent::Level(None)) => halt(
                    ServerError::Protocol(ProtocolError::MalformedPayload),
                ),
                (ServerPhase::SettingVolume, ServerEvent::Done) => (
                    ServerPhase::WakingScreen,
                    ServerAction::WakeScreen,
                ),
                (ServerPhase::WakingScreen, ServerEvent::Done) => (
                    ServerPhase::Accepting,
                    ServerAction::Accept,
                ),
                (ServerPhase::GettingVolume, ServerEvent::Volume(level)) => (
                    ServerPhase::SendingReport,
                    ServerAction::SendReport { level },
                ),
                (ServerPhase::SendingReport, ServerEvent::Done) => (
                    ServerPhase::Accepting,
                    ServerAction::Accept,
                ),
                _ => halt(ServerError::OutOfSequence),
            },
        },
    }
}

impl AudioServer {
    /// A server for the given port that has not started yet.
    pub fn new(port: u16) -> (server: AudioServer)
        ensures
            server@.port == port,
            server@.phase == ServerPhase::Created,
    {
        AudioServer { port, phase: ServerPhase::Created }
    }

    /// The port that the server listens on.
    pub fn port(&self) -> (port: u16)
        ensures
            port == self@.port,
    {
        self.port
    }

    /// What the server is waiting for.
    pub fn phase(&self) -> (phase: ServerPhase)
        ensures
            phase == self@.phase,
    {
        self.phase
    }

    /// Starts the server, or starts it anew: the first operation is to
    /// listen on the server's port.
    pub fn run(&mut self) -> (action: ServerAction)
        ensures
            final(self)@.port == old(self)@.port,
            final(self)@.phase == ServerPhase::Starting,
            action == (ServerAction::Listen { port: old(self)@.port }),
    {
        self.phase = ServerPhase::Starting;
        ServerAction::Listen { port: self.port }
    }

    /// Takes what the last operation brought and decides on the next, as
    /// [`step_spec`] says.
    pub fn step(&mut self, event: ServerEvent) -> (action: ServerAction)
        ensures
            final(self)@.port == old(self)@.port,
            (final(self)@.phase, action) == step_spec(old(self)@.phase, event),
    {
        let (next, action) = decide(self.phase, event);
        self.phase = next;
        action
    }
}

/// Every event is answered by one action.
pub proof fn lemma_run_answers_each_event(phase: ServerPhase, events: Seq<ServerEvent>)
    ensures
        run_spec(phase, events).1.len() == events.len(),
    decreases events.len(),
{
    if events.len() > 0 {
        lemma_run_answers_each_event(step_spec(phase, events[0]).0, events.drop_first());
    }
}

/// A halted server stays halted: whatever arrives, it accepts no connection
/// and performs no operation, and keeps its error.
pub proof fn lemma_halted_stays_halted(error: ServerError, events: Seq<ServerEvent>)
    ensures
        run_spec(ServerPhase::Halted { error }, events).0 == (ServerPhase::Halted { error }),
        run_spec(ServerPhase::Halted { error }, events).1.len() == events.len(),
        forall|k: int|
            0 <= k < events.len() ==> #[trigger] run_spec(ServerPhase::Halted { error }, events).1[k]
                == (ServerAction::Halt { error }),
    decreases events.len(),
{
    if events.len() > 0 {
        lemma_halted_stays_halted(error, events.drop_first());
    }
}

/// Once the server halts, every later action is the same halt.
pub proof fn lemma_halt_is_final(phase: ServerPhase, events: Seq<ServerEvent>, at: int)
    requires
        0 <= at < events.len(),
        run_spec(phase, events).1[at] is Halt,
    ensures
        forall|k: int|
            at <= k < events.len() ==> #[trigger] run_spec(phase, events).1[k] == run_spec(
                phase,
                events,
            ).1[at],
    decreases events.len(),
{
    let first = step_spec(phase, events[0]);
    let rest = run_spec(first.0, events.drop_first());
    lemma_run_answers_each_event(first.0, events.drop_first());
    if at == 0 {
        let error = first.1->error;
        assert(first.0 == (ServerPhase::Halted { error }));
        lemma_halted_stays_halted(error, events.drop_first());
    } else {
        assert(run_spec(phase, events).1[at] == rest.1[at - 1]);
        lemma_halt_is_final(first.0, events.drop_first(), at - 1);
        assert forall|k: int| at <= k < events.len() implies #[trigger] run_spec(phase, events).1[k]
            == run_spec(phase, events).1[at] by {
            assert(run_spec(phase, events).1[k] == rest.1[k - 1]);
        }
    }
}

/// A tag other than `s:` and `g:` halts the server with a protocol error,
/// and the server accepts no further connection.
pub proof fn lemma_unknown_tag_halts(tag: [u8; 2], events: Seq<ServerEvent>)
    requires
        events.len() >= 1,
        events[0] == ServerEvent::Tag(tag),
        !(tag@[1] == TAG_END && (tag@[0] == TAG_SET || tag@[0] == TAG_GET)),
    ensures
        command_of_tag(tag@[0], tag@[1]) is Err,
        run_spec(ServerPhase::ReadingTag, events).0 == (ServerPhase::Halted {
            error: ServerError::Protocol(command_of_tag(tag@[0], tag@[1])->Err_0),
        }),
        forall|k: int|
            0 <= k < events.len() ==> #[trigger] run_spec(ServerPhase::ReadingTag, events).1[k]
                == (ServerAction::Halt {
                error: ServerError::Protocol(command_of_tag(tag@[0], tag@[1])->Err_0),
            }),
{
    lemma_halted_stays_halted(
        ServerError::Protocol(command_of_tag(tag@[0], tag@[1])->Err_0),
        events.drop_first(),
    );
}

/// A payload that is no number halts the server with a protocol error: the
/// volume is not set then or later, and no further connection is accepted.
pub proof fn lemma_malformed_payload_halts(events: Seq<ServerEvent>)
    requires
        events.len() >= 1,
        events[0] == ServerEvent::Level(None),
    ensures
        run_spec(ServerPhase::ReadingLevel, events).0 == (ServerPhase::Halted {
            error: ServerError::Protocol(ProtocolError::MalformedPayload),
        }),
        forall|k: int|
            0 <= k < events.len() ==> #[trigger] run_spec(ServerPhase::ReadingLevel, events).1[k]
                == (ServerAction::Halt {
                error: ServerError::Protocol(ProtocolError::MalformedPayload),
            }),
{
    lemma_halted_stays_halted(
        ServerError::Protocol(ProtocolError::MalformedPayload),
        events.drop_first(),
    );
}

/// The volume is set only to a level that a client's payload denotes, and
/// the screen is woken only after the volume was set.
pub proof fn lemma_volume_is_set_as_received(phase: ServerPhase, event: ServerEvent)
    ensures
        step_spec(phase, event).1 matches ServerAction::SetVolume { level } ==> phase
            == ServerPhase::ReadingLevel && event == ServerEvent::Level(Some(level)),
        step_spec(phase, event).1 is WakeScreen ==> phase == ServerPhase::SettingVolume && event
            == ServerEvent::Done,
        step_spec(phase, event).1 matches ServerAction::SendReport { level } ==> phase
            == ServerPhase::GettingVolume && event == ServerEvent::Volume(level),
{
}

/// Connections are served one after the other: the next is accepted only
/// when the listener has just been bound or the request at hand has been
/// served to its end.
pub proof fn lemma_accepts_between_requests(phase: ServerPhase, event: ServerEvent)
    ensures
        step_spec(phase, event).1 is Accept ==> (phase == ServerPhase::Starting && event
            == ServerEvent::Listening) || (event == ServerEvent::Done && (phase
            == ServerPhase::WakingScreen || phase == ServerPhase::SendingReport)),
{
}

/// The events of two connections served one after the other: a request to
/// set the volume to `set`, then a request for the volume, which the backend
/// gives as `measured`.
pub open spec fn set_then_get_events(set: VolumeLevel, measured: VolumeLevel) -> Seq<ServerEvent> {
    seq![
        ServerEvent::Accepted,
        ServerEvent::Tag([TAG_SET, TAG_END]),
        ServerEvent::Level(Some(set)),
        ServerEvent::Done,
        ServerEvent::Done,
        ServerEvent::Accepted,
        ServerEvent::Tag([TAG_GET, TAG_END]),
        ServerEvent::Volume(measured),
        ServerEvent::Done,
    ]
}

/// A level passes through the server unchanged in both directions: the
/// backend is set to exactly the level that the client's payload denotes,
/// the screen is woken after that, and the level reported is exactly the one
/// that the backend gives. With a backend that gives back what it was set
/// to, a client reads the level that it has set.
pub proof fn lemma_set_then_get_carries_level(set: VolumeLevel, measured: VolumeLevel)
    ensures
        run_spec(ServerPhase::Accepting, set_then_get_events(set, measured)) == (
            ServerPhase::Accepting,
            seq![
                ServerAction::ReadTag,
                ServerAction::ReadLevel,
                ServerAction::SetVolume { level: set },
                ServerAction::WakeScreen,
                ServerAction::Accept,
                ServerAction::ReadTag,
                ServerAction::GetVolume,
                ServerAction::SendReport { level: measured },
                ServerAction::Accept,
            ],
        ),
{
    let events = set_then_get_events(set, measured);
    let e1 = events.drop_first();
    let e2 = e1.drop_first();
    let e3 = e2.drop_first();
    let e4 = e3.drop_first();
    let e5 = e4.drop_first();
    let e6 = e5.drop_first();
    let e7 = e6.drop_first();
    let e8 = e7.drop_first();
    let e9 = e8.drop_first();
    assert(e9.len() == 0);
    let r9 = run_spec(ServerPhase::Accepting, e9);
    let r8 = run_spec(ServerPhase::SendingReport, e8);
    let r7 = run_spec(ServerPhase::GettingVolume, e7);
    let r6 = run_spec(ServerPhase::ReadingTag, e6);
    let r5 = run_spec(ServerPhase::Accepting, e5);
    let r4 = run_spec(ServerPhase::WakingScreen, e4);
    let r3 = run_spec(ServerPhase::SettingVolume, e3);
    let r2 = run_spec(ServerPhase::ReadingLevel, e2);
    let r1 = run_spec(ServerPhase::ReadingTag, e1);
    let r0 = run_spec(ServerPhase::Accepting, events);
    assert(r9.1 =~= Seq::<ServerAction>::empty());
    assert(r8.1 =~= seq![ServerAction::Accept]);
    assert(r7.1 =~= seq![ServerAction::SendReport { level: measured }] + r8.1);
    assert(r6.1 =~= seq![ServerAction::GetVolume] + r7.1);
    assert(r5.1 =~= seq![ServerAction::ReadTag] + r6.1);
    assert(r4.1 =~= seq![ServerAction::Accept] + r5.1);
    assert(r3.1 =~= seq![ServerAction::WakeScreen] + r4.1);
    assert(r2.1 =~= seq![ServerAction::SetVolume { level: set }] + r3.1);
    assert(r1.1 =~= seq![ServerAction::ReadLevel] + r2.1);
    assert(r0.1 =~= seq![ServerAction::ReadTag] + r1.1);
    assert(r0.1 =~= seq![
        ServerAction::ReadTag,
        ServerAction::ReadLevel,
        ServerAction::SetVolume { level: set },
        ServerAction::WakeScreen,
        ServerAction::Accept,
        ServerAction::ReadTag,
        ServerAction::GetVolume,
        ServerAction::SendReport { level: measured },
        ServerAction::Accept,
    ]);
}

} // verus!
