use music_transfer::controllers::spotify::{
    clamp_percent, find_device, normalize_devices, Device, DeviceNormalized, DeviceType, SpotifyWrapper,
    TransferAction, TransferError, TransferEvent, CONVERGENCE_DELAY_MILLIS,
    MAX_CONVERGENCE_ATTEMPTS, MAX_VOLUME_PERCENT,
};

fn listed(id: &str, name: &str, volume: u32, active: bool) -> Device {
    Device {
        id: Some(String::from(id)),
        is_active: active,
        is_private_session: false,
        is_restricted: false,
        name: String::from(name),
        _type: DeviceType::Computer,
        volume_percent: Some(volume),
    }
}

fn poll() -> TransferAction {
    TransferAction::SleepThenFetchPlayback { delay_millis: 200 }
}

fn finished(outcome: Result<(), TransferError>) -> TransferAction {
    TransferAction::Finish { outcome }
}

/// What a streaming service may answer, and what was asked of it.
struct Service {
    devices: Vec<Device>,
    playing: Device,
    /// The device that is reported as playing from the given poll on.
    arrives: Option<(u32, Device)>,
    transfers: Vec<String>,
    polls: u32,
    volumes: Vec<u8>,
    lists: u32,
}

fn copy_of(d: &Device) -> Device {
    d.duplicate()
}

fn service(devices: Vec<Device>, playing: Device, arrives: Option<(u32, Device)>) -> Service {
    Service { devices, playing, arrives, transfers: Vec::new(), polls: 0, volumes: Vec::new(), lists: 0 }
}

fn drive(service: &mut Service, target: &str, sync_volume: bool) -> Result<(), TransferError> {
    let mut wrapper = SpotifyWrapper::new();
    let mut action = wrapper.transfer_playback(String::from(target), sync_volume);
    let mut steps = 0;
    loop {
        steps += 1;
        assert!(steps < 100);
        let event = match action {
            TransferAction::ListDevices => {
                service.lists += 1;
                TransferEvent::Devices(service.devices.iter().map(copy_of).collect())
            }
            TransferAction::FetchPlayback => TransferEvent::Playback(Some(copy_of(&service.playing))),
            TransferAction::TransferPlayback { device_id } => {
                service.transfers.push(device_id);
                TransferEvent::Completed
            }
            TransferAction::SleepThenFetchPlayback { delay_millis } => {
                assert_eq!(delay_millis, CONVERGENCE_DELAY_MILLIS);
                service.polls += 1;
                let seen = match &service.arrives {
                    Some((from, device)) if service.polls >= *from => copy_of(device),
                    _ => copy_of(&service.playing),
                };
                TransferEvent::Playback(Some(seen))
            }
            TransferAction::SetVolume { percent } => {
                service.volumes.push(percent);
                TransferEvent::Completed
            }
            TransferAction::Finish { outcome } => {
                assert_eq!(wrapper.outcome(), Some(outcome));
                return outcome;
            }
        };
        action = wrapper.step(event);
    }
}

#[test]
fn constants_are_ten_attempts_of_200_ms() {
    assert_eq!(MAX_CONVERGENCE_ATTEMPTS, 10);
    assert_eq!(CONVERGENCE_DELAY_MILLIS, 200);
}

#[test]
fn well_formed_device_is_normalized() {
    let d = Device {
        id: Some(String::from("abc")),
        is_active: true,
        is_private_session: true,
        is_restricted: false,
        name: String::from("Desk"),
        _type: DeviceType::Speaker,
        volume_percent: Some(42),
    };
    assert_eq!(
        d.normalize(),
        Ok(DeviceNormalized {
            id: String::from("abc"),
            is_active: true,
            is_private_session: true,
            is_restricted: false,
            name: String::from("Desk"),
            _type: DeviceType::Speaker,
            volume_percent: 42,
        })
    );
}

#[test]
fn device_without_id_is_rejected() {
    let mut d = listed("a", "Desk", 10, false);
    d.id = None;
    assert_eq!(d.normalize(), Err(TransferError::MissingDeviceId));
}

#[test]
fn device_without_volume_is_rejected() {
    let mut d = listed("a", "Desk", 10, false);
    d.volume_percent = None;
    assert_eq!(d.normalize(), Err(TransferError::MissingVolumePercent));
}

#[test]
fn missing_id_is_reported_before_missing_volume() {
    let mut d = listed("a", "Desk", 10, false);
    d.id = None;
    d.volume_percent = None;
    assert_eq!(d.normalize(), Err(TransferError::MissingDeviceId));
}

#[test]
fn volume_is_kept_modulo_256() {
    assert_eq!(listed("a", "Desk", 100, false).normalize().unwrap().volume_percent, 100);
    assert_eq!(listed("a", "Desk", 0, false).normalize().unwrap().volume_percent, 0);
    assert_eq!(listed("a", "Desk", 255, false).normalize().unwrap().volume_percent, 255);
    assert_eq!(listed("a", "Desk", 256, false).normalize().unwrap().volume_percent, 0);
    assert_eq!(listed("a", "Desk", 300, false).normalize().unwrap().volume_percent, 44);
}

#[test]
fn duplicate_equals_the_device() {
    let d = listed("a", "Desk", 10, true);
    assert_eq!(d.duplicate(), d);
    let mut e = listed("b", "Sofa", 20, false);
    e.id = None;
    assert_eq!(e.duplicate(), e);
}

#[test]
fn listing_is_normalized_in_order() {
    let listing = vec![listed("a", "Desk", 10, true), listed("b", "Sofa", 20, false)];
    let devices = normalize_devices(&listing).unwrap();
    assert_eq!(devices.len(), 2);
    assert_eq!(devices[0].id, "a");
    assert_eq!(devices[0].volume_percent, 10);
    assert_eq!(devices[1].name, "Sofa");
    assert_eq!(SpotifyWrapper::devices(&listing).unwrap(), devices);
    assert_eq!(normalize_devices(&Vec::new()), Ok(Vec::new()));
}

#[test]
fn listing_fails_on_its_first_malformed_entry() {
    let mut no_volume = listed("b", "Sofa", 20, false);
    no_volume.volume_percent = None;
    let mut no_id = listed("c", "Hall", 30, false);
    no_id.id = None;
    let listing = vec![listed("a", "Desk", 10, true), no_volume, no_id];
    assert_eq!(normalize_devices(&listing), Err(TransferError::MissingVolumePercent));
    assert_eq!(SpotifyWrapper::devices(&listing), Err(TransferError::MissingVolumePercent));
}

#[test]
fn device_is_found_by_exact_name() {
    let devices = normalize_devices(&vec![
        listed("a", "Desk", 10, true),
        listed("b", "Sofa", 20, false),
        listed("c", "Sofa", 30, false),
    ])
    .unwrap();
    assert_eq!(find_device(&devices, &String::from("Desk")), Some(0));
    assert_eq!(find_device(&devices, &String::from("Sofa")), Some(1));
    assert_eq!(find_device(&devices, &String::from("sofa")), None);
    assert_eq!(find_device(&devices, &String::from("Sof")), None);
    assert_eq!(find_device(&devices, &String::from("Sofa ")), None);
    assert_eq!(find_device(&Vec::new(), &String::from("Sofa")), None);
}

#[test]
fn transfer_to_playing_device_does_nothing() {
    let devices = vec![listed("a", "Desk", 10, true), listed("b", "Sofa", 20, false)];
    let mut s = service(devices, listed("a", "Desk", 10, true), None);
    assert_eq!(drive(&mut s, "Desk", true), Ok(()));
    assert!(s.transfers.is_empty());
    assert!(s.volumes.is_empty());
    assert_eq!(s.polls, 0);
    assert_eq!(s.lists, 1);
}

#[test]
fn transfer_goes_by_id_where_names_repeat() {
    let devices = vec![listed("a", "Desk", 10, false), listed("b", "Desk", 20, true)];
    let mut s = service(devices, listed("b", "Desk", 20, true), None);
    assert_eq!(drive(&mut s, "Desk", false), Ok(()));
    assert_eq!(s.transfers, vec![String::from("a")]);
}

#[test]
fn transfer_to_unknown_device_is_not_found() {
    let devices = vec![listed("a", "Desk", 10, true), listed("b", "Sofa", 20, false)];
    let mut s = service(devices, listed("a", "Desk", 10, true), None);
    assert_eq!(drive(&mut s, "Kitchen", true), Err(TransferError::DeviceNotFound));
    assert!(s.transfers.is_empty());
    assert!(s.volumes.is_empty());
    assert_eq!(s.polls, 0);
    let mut s = service(Vec::new(), listed("a", "Desk", 10, true), None);
    assert_eq!(drive(&mut s, "Desk", false), Err(TransferError::DeviceNotFound));
    assert!(s.transfers.is_empty());
}

#[test]
fn transfer_without_volume_sync_ends_after_the_transfer() {
    let devices = vec![listed("a", "Desk", 10, true), listed("b", "Sofa", 20, false)];
    let mut s = service(devices, listed("a", "Desk", 10, true), None);
    assert_eq!(drive(&mut s, "Sofa", false), Ok(()));
    assert_eq!(s.transfers, vec![String::from("b")]);
    assert_eq!(s.polls, 0);
    assert!(s.volumes.is_empty());
}

#[test]
fn volume_is_set_once_when_target_arrives_on_fourth_poll() {
    let devices = vec![listed("a", "Desk", 35, true), listed("b", "Sofa", 20, false)];
    let mut s = service(devices, listed("a", "Desk", 35, true), Some((4, listed("b", "Sofa", 35, true))));
    assert_eq!(drive(&mut s, "Sofa", true), Ok(()));
    assert_eq!(s.transfers, vec![String::from("b")]);
    assert_eq!(s.polls, 4);
    assert_eq!(s.volumes, vec![35u8]);
}

#[test]
fn volume_is_set_when_target_arrives_on_first_or_last_poll() {
    let devices = vec![listed("a", "Desk", 35, true), listed("b", "Sofa", 20, false)];
    let mut s = service(devices, listed("a", "Desk", 35, true), Some((1, listed("b", "Sofa", 35, true))));
    assert_eq!(drive(&mut s, "Sofa", true), Ok(()));
    assert_eq!(s.polls, 1);
    assert_eq!(s.volumes, vec![35u8]);
    let devices = vec![listed("a", "Desk", 35, true), listed("b", "Sofa", 20, false)];
    let mut s = service(devices, listed("a", "Desk", 35, true), Some((10, listed("b", "Sofa", 35, true))));
    assert_eq!(drive(&mut s, "Sofa", true), Ok(()));
    assert_eq!(s.polls, 10);
    assert_eq!(s.volumes, vec![35u8]);
}

#[test]
fn convergence_gives_up_silently_after_ten_polls() {
    let devices = vec![listed("a", "Desk", 35, true), listed("b", "Sofa", 20, false)];
    let mut s = service(devices, listed("a", "Desk", 35, true), None);
    assert_eq!(drive(&mut s, "Sofa", true), Ok(()));
    assert_eq!(s.transfers, vec![String::from("b")]);
    assert_eq!(s.polls, 10);
    assert!(s.volumes.is_empty());
}

#[test]
fn target_at_another_volume_has_not_converged() {
    let devices = vec![listed("a", "Desk", 35, true), listed("b", "Sofa", 20, false)];
    let mut s = service(devices, listed("a", "Desk", 35, true), Some((2, listed("b", "Sofa", 20, true))));
    assert_eq!(drive(&mut s, "Sofa", true), Ok(()));
    assert_eq!(s.polls, 10);
    assert!(s.volumes.is_empty());
}

#[test]
fn arrival_after_the_last_poll_is_not_seen() {
    let devices = vec![listed("a", "Desk", 35, true), listed("b", "Sofa", 20, false)];
    let mut s = service(devices, listed("a", "Desk", 35, true), Some((11, listed("b", "Sofa", 35, true))));
    assert_eq!(drive(&mut s, "Sofa", true), Ok(()));
    assert_eq!(s.polls, 10);
    assert!(s.volumes.is_empty());
}

#[test]
fn malformed_listing_fails_the_transfer() {
    let mut broken = listed("b", "Sofa", 20, false);
    broken.id = None;
    let mut s = service(vec![listed("a", "Desk", 10, true), broken], listed("a", "Desk", 10, true), None);
    assert_eq!(drive(&mut s, "Desk", false), Err(TransferError::MissingDeviceId));
    assert!(s.transfers.is_empty());
}

#[test]
fn malformed_playing_device_fails_the_transfer() {
    let mut playing = listed("a", "Desk", 10, true);
    playing.volume_percent = None;
    let mut s = service(vec![listed("b", "Sofa", 20, false)], playing, None);
    assert_eq!(drive(&mut s, "Sofa", true), Err(TransferError::MissingVolumePercent));
    assert!(s.transfers.is_empty());
}

fn awaiting_playback() -> SpotifyWrapper {
    let mut wrapper = SpotifyWrapper::new();
    assert_eq!(wrapper.transfer_playback(String::from("Sofa"), true), TransferAction::ListDevices);
    let listing = vec![listed("a", "Desk", 10, true), listed("b", "Sofa", 20, false)];
    assert_eq!(wrapper.step(TransferEvent::Devices(listing)), TransferAction::FetchPlayback);
    wrapper
}

#[test]
fn no_active_playback_fails_the_transfer() {
    let mut wrapper = awaiting_playback();
    assert_eq!(
        wrapper.step(TransferEvent::Playback(None)),
        finished(Err(TransferError::NoActivePlayback))
    );
    assert_eq!(wrapper.outcome(), Some(Err(TransferError::NoActivePlayback)));
}

#[test]
fn failed_call_fails_the_transfer_at_every_stage() {
    let failed = finished(Err(TransferError::ExternalApi));
    let mut wrapper = SpotifyWrapper::new();
    wrapper.transfer_playback(String::from("Sofa"), true);
    assert_eq!(wrapper.step(TransferEvent::Failed), failed);

    let mut wrapper = awaiting_playback();
    assert_eq!(wrapper.step(TransferEvent::Failed), failed);

    let mut wrapper = awaiting_playback();
    assert_eq!(
        wrapper.step(TransferEvent::Playback(Some(listed("a", "Desk", 10, true)))),
        TransferAction::TransferPlayback { device_id: String::from("b") }
    );
    assert_eq!(wrapper.step(TransferEvent::Failed), failed);

    let mut wrapper = awaiting_playback();
    wrapper.step(TransferEvent::Playback(Some(listed("a", "Desk", 10, true))));
    assert_eq!(wrapper.step(TransferEvent::Completed), poll());
    assert_eq!(wrapper.attempt(), Some(1));
    assert_eq!(wrapper.step(TransferEvent::Failed), failed);

    let mut wrapper = awaiting_playback();
    wrapper.step(TransferEvent::Playback(Some(listed("a", "Desk", 10, true))));
    wrapper.step(TransferEvent::Completed);
    assert_eq!(
        wrapper.step(TransferEvent::Playback(Some(listed("b", "Sofa", 10, true)))),
        TransferAction::SetVolume { percent: 10 }
    );
    assert_eq!(wrapper.step(TransferEvent::Failed), failed);
    assert_eq!(wrapper.step(TransferEvent::Completed), failed);
}

#[test]
fn polls_are_numbered_from_one() {
    let mut wrapper = awaiting_playback();
    assert_eq!(wrapper.attempt(), None);
    wrapper.step(TransferEvent::Playback(Some(listed("a", "Desk", 10, true))));
    wrapper.step(TransferEvent::Completed);
    let mut n = 1u8;
    while n < 10 {
        assert_eq!(wrapper.attempt(), Some(n));
        assert_eq!(wrapper.step(TransferEvent::Playback(Some(listed("a", "Desk", 10, true)))), poll());
        n += 1;
    }
    assert_eq!(wrapper.attempt(), Some(10));
    assert_eq!(
        wrapper.step(TransferEvent::Playback(Some(listed("a", "Desk", 10, true)))),
        finished(Ok(()))
    );
    assert_eq!(wrapper.attempt(), None);
    assert_eq!(wrapper.outcome(), Some(Ok(())));
}

#[test]
fn malformed_polled_device_fails_the_transfer() {
    let mut wrapper = awaiting_playback();
    wrapper.step(TransferEvent::Playback(Some(listed("a", "Desk", 10, true))));
    wrapper.step(TransferEvent::Completed);
    let mut polled = listed("b", "Sofa", 10, true);
    polled.id = None;
    assert_eq!(
        wrapper.step(TransferEvent::Playback(Some(polled))),
        finished(Err(TransferError::MissingDeviceId))
    );
    let mut wrapper = awaiting_playback();
    wrapper.step(TransferEvent::Playback(Some(listed("a", "Desk", 10, true))));
    wrapper.step(TransferEvent::Completed);
    assert_eq!(
        wrapper.step(TransferEvent::Playback(None)),
        finished(Err(TransferError::NoActivePlayback))
    );
}

#[test]
fn events_out_of_turn_fail_the_transfer() {
    let mut wrapper = SpotifyWrapper::new();
    assert_eq!(wrapper.outcome(), None);
    assert_eq!(wrapper.step(TransferEvent::Completed), finished(Err(TransferError::OutOfSequence)));
    let mut wrapper = awaiting_playback();
    assert_eq!(wrapper.step(TransferEvent::Completed), finished(Err(TransferError::OutOfSequence)));
    let mut wrapper = SpotifyWrapper::new();
    wrapper.transfer_playback(String::from("Sofa"), false);
    assert_eq!(
        wrapper.step(TransferEvent::Playback(None)),
        finished(Err(TransferError::OutOfSequence))
    );
}

#[test]
fn finished_transfer_stays_finished_until_the_next_begins() {
    let mut wrapper = awaiting_playback();
    let done = finished(Ok(()));
    assert_eq!(wrapper.step(TransferEvent::Playback(Some(listed("b", "Sofa", 20, true)))), done);
    assert_eq!(wrapper.step(TransferEvent::Completed), done);
    assert_eq!(wrapper.step(TransferEvent::Failed), done);
    assert_eq!(wrapper.step(TransferEvent::Devices(Vec::new())), done);
    assert_eq!(wrapper.transfer_playback(String::from("Desk"), false), TransferAction::ListDevices);
    assert_eq!(wrapper.outcome(), None);
}

#[test]
fn scopes_cover_playback_state() {
    assert_eq!(
        SpotifyWrapper::scopes(),
        ["user-modify-playback-state", "user-read-playback-state", "user-read-recently-played"]
    );
}

#[test]
fn volume_is_clamped_to_what_the_service_takes() {
    assert_eq!(MAX_VOLUME_PERCENT, 100);
    assert_eq!(clamp_percent(0), 0);
    assert_eq!(clamp_percent(35), 35);
    assert_eq!(clamp_percent(100), 100);
    assert_eq!(clamp_percent(101), 100);
    assert_eq!(clamp_percent(255), 100);
}

#[test]
fn volume_above_the_range_is_set_as_the_maximum() {
    let devices = vec![listed("a", "Desk", 150, true), listed("b", "Sofa", 20, false)];
    let mut s =
        service(devices, listed("a", "Desk", 150, true), Some((2, listed("b", "Sofa", 150, true))));
    assert_eq!(drive(&mut s, "Sofa", true), Ok(()));
    assert_eq!(s.polls, 2);
    assert_eq!(s.volumes, vec![100u8]);
}
