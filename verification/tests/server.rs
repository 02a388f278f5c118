use music_transfer::controllers::volume::VolumeLevel;
use music_transfer::rpc::client::{
    AudioClient, ClientAction, ClientError, ClientEvent, ConnectTarget,
};
use music_transfer::rpc::protocol::{encode_volume_report, ProtocolError};
use music_transfer::rpc::server::{
    AudioServer, Failure, ServerAction, ServerError, ServerEvent, ServerPhase, LISTEN_HOST,
};

fn level(v: f32) -> VolumeLevel {
    VolumeLevel::from_bits(v.to_bits())
}

fn serving() -> AudioServer {
    let mut server = AudioServer::new(4000);
    assert_eq!(server.run(), ServerAction::Listen { port: 4000 });
    assert_eq!(server.step(ServerEvent::Listening), ServerAction::Accept);
    server
}

fn reading_tag() -> AudioServer {
    let mut server = serving();
    assert_eq!(server.step(ServerEvent::Accepted), ServerAction::ReadTag);
    server
}

#[test]
fn new_server_keeps_its_port() {
    let server = AudioServer::new(8080);
    assert_eq!(server.port(), 8080);
    assert_eq!(server.phase(), ServerPhase::Created);
}

#[test]
fn server_listens_then_accepts() {
    let server = serving();
    assert_eq!(server.phase(), ServerPhase::Accepting);
    assert_eq!(server.port(), 4000);
}

#[test]
fn set_request_sets_volume_then_wakes_screen() {
    let mut server = reading_tag();
    assert_eq!(server.step(ServerEvent::Tag(*b"s:")), ServerAction::ReadLevel);
    assert_eq!(
        server.step(ServerEvent::Level(Some(level(0.4)))),
        ServerAction::SetVolume { level: level(0.4) }
    );
    assert_eq!(server.step(ServerEvent::Done), ServerAction::WakeScreen);
    assert_eq!(server.step(ServerEvent::Done), ServerAction::Accept);
    assert_eq!(server.phase(), ServerPhase::Accepting);
}

#[test]
fn get_request_reports_volume() {
    let mut server = reading_tag();
    assert_eq!(server.step(ServerEvent::Tag(*b"g:")), ServerAction::GetVolume);
    assert_eq!(
        server.step(ServerEvent::Volume(level(0.7))),
        ServerAction::SendReport { level: level(0.7) }
    );
    assert_eq!(server.step(ServerEvent::Done), ServerAction::Accept);
}

#[test]
fn unknown_tag_halts_the_server_for_good() {
    let mut server = reading_tag();
    let halt = ServerAction::Halt { error: ServerError::Protocol(ProtocolError::InvalidCommand) };
    assert_eq!(server.step(ServerEvent::Tag(*b"x:")), halt);
    assert_eq!(server.step(ServerEvent::Accepted), halt);
    assert_eq!(server.step(ServerEvent::Listening), halt);
    assert_eq!(server.step(ServerEvent::Tag(*b"g:")), halt);
    assert_eq!(
        server.phase(),
        ServerPhase::Halted { error: ServerError::Protocol(ProtocolError::InvalidCommand) }
    );
}

#[test]
fn tag_without_separator_halts_the_server() {
    let mut server = reading_tag();
    let halt = ServerAction::Halt { error: ServerError::Protocol(ProtocolError::MalformedCommand) };
    assert_eq!(server.step(ServerEvent::Tag(*b"s-")), halt);
    assert_eq!(server.step(ServerEvent::Accepted), halt);
}

#[test]
fn non_numeric_payload_halts_without_setting_volume() {
    let mut backend = 0.3f32;
    let mut server = reading_tag();
    let mut action = server.step(ServerEvent::Tag(*b"s:"));
    assert_eq!(action, ServerAction::ReadLevel);
    let payload = "abc";
    let mut steps = 0;
    loop {
        steps += 1;
        assert!(steps < 10);
        let event = match action {
            ServerAction::ReadLevel => ServerEvent::Level(
                payload.parse::<f32>().ok().map(|v| VolumeLevel::from_bits(v.to_bits())),
            ),
            ServerAction::SetVolume { level } => {
                backend = f32::from_bits(level.to_bits());
                ServerEvent::Done
            }
            ServerAction::Halt { error } => {
                assert_eq!(error, ServerError::Protocol(ProtocolError::MalformedPayload));
                break;
            }
            _ => ServerEvent::Done,
        };
        action = server.step(event);
    }
    assert_eq!(backend, 0.3f32);
    assert_eq!(
        server.step(ServerEvent::Accepted),
        ServerAction::Halt { error: ServerError::Protocol(ProtocolError::MalformedPayload) }
    );
}

#[test]
fn failed_operations_halt_the_server() {
    let mut server = serving();
    assert_eq!(
        server.step(ServerEvent::Failed(Failure::Connection)),
        ServerAction::Halt { error: ServerError::Connection }
    );
    let mut server = reading_tag();
    server.step(ServerEvent::Tag(*b"g:"));
    assert_eq!(
        server.step(ServerEvent::Failed(Failure::Backend)),
        ServerAction::Halt { error: ServerError::Backend }
    );
    assert_eq!(server.step(ServerEvent::Done), ServerAction::Halt { error: ServerError::Backend });
    let mut server = AudioServer::new(1);
    server.run();
    assert_eq!(
        server.step(ServerEvent::Failed(Failure::Backend)),
        ServerAction::Halt { error: ServerError::Backend }
    );
}

#[test]
fn events_out_of_turn_halt_the_server() {
    let mut server = AudioServer::new(1);
    assert_eq!(
        server.step(ServerEvent::Listening),
        ServerAction::Halt { error: ServerError::OutOfSequence }
    );
    let mut server = serving();
    assert_eq!(
        server.step(ServerEvent::Tag(*b"g:")),
        ServerAction::Halt { error: ServerError::OutOfSequence }
    );
    let mut server = reading_tag();
    assert_eq!(
        server.step(ServerEvent::Level(None)),
        ServerAction::Halt { error: ServerError::OutOfSequence }
    );
}

/// Serves one request, given as the bytes that a client sent before closing
/// its side, against a volume held in a variable; returns the reply.
fn serve_one(server: &mut AudioServer, backend: &mut f32, request: &[u8]) -> Vec<u8> {
    let mut reply = Vec::new();
    let mut action = server.step(ServerEvent::Accepted);
    loop {
        let event = match action {
            ServerAction::ReadTag => ServerEvent::Tag([request[0], request[1]]),
            ServerAction::ReadLevel => {
                let text = String::from_utf8(request[2..].to_vec()).unwrap();
                ServerEvent::Level(text.parse::<f32>().ok().map(|v| level(v)))
            }
            ServerAction::SetVolume { level } => {
                *backend = f32::from_bits(level.to_bits());
                ServerEvent::Done
            }
            ServerAction::WakeScreen => ServerEvent::Done,
            ServerAction::GetVolume => ServerEvent::Volume(level(*backend)),
            ServerAction::SendReport { level } => {
                let text = format!("{}", f32::from_bits(level.to_bits()));
                reply = encode_volume_report(text.as_bytes());
                ServerEvent::Done
            }
            ServerAction::Accept => return reply,
            other => panic!("{:?}", other),
        };
        action = server.step(event);
    }
}

fn connected() -> AudioClient {
    let mut client = AudioClient::new(String::from("desk"), 4000);
    assert_eq!(client.connect(), ClientAction::Connect { target: ConnectTarget::ByName });
    assert_eq!(client.step(ClientEvent::Connected), ClientAction::AwaitRequest);
    client
}

/// Runs one exchange of a connected client against the server, from the
/// request that the client has begun, and returns how the exchange ended.
fn exchange(
    client: &mut AudioClient,
    begun: ClientAction,
    server: &mut AudioServer,
    backend: &mut f32,
) -> Result<Option<VolumeLevel>, ClientError> {
    let mut reply = Vec::new();
    let mut action = begun;
    loop {
        let event = match action {
            ClientAction::Send { request } => {
                reply = serve_one(server, backend, &request.message);
                ClientEvent::Sent
            }
            ClientAction::ReadTag => ClientEvent::Tag([reply[0], reply[1]]),
            ClientAction::ReadLevel => {
                let text = String::from_utf8(reply[2..].to_vec()).unwrap();
                ClientEvent::Level(text.parse::<f32>().ok().map(|v| level(v)))
            }
            ClientAction::Finish { outcome } => return outcome,
            other => panic!("{:?}", other),
        };
        action = client.step(event);
    }
}

#[test]
fn volume_set_remotely_is_read_back_exactly() {
    let mut i = 0u32;
    while i <= 1000 {
        let v = i as f32 / 1000.0;
        let mut backend = 0.0f32;
        let mut server = serving();

        let mut client = connected();
        let begun = client.set_remote_volume(format!("{}", v).as_bytes());
        assert_eq!(exchange(&mut client, begun, &mut server, &mut backend), Ok(None));
        assert_eq!(backend.to_bits(), v.to_bits());

        let mut client = connected();
        let begun = client.get_remote_volume();
        let read = exchange(&mut client, begun, &mut server, &mut backend);
        assert_eq!(read, Ok(Some(level(v))));
        i += 1;
    }
}

#[test]
fn server_listens_on_every_interface() {
    assert_eq!(LISTEN_HOST, "0.0.0.0");
}
