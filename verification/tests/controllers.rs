use music_transfer::config::{Config, SpotifyCreds, SpotifyTransfer, VolumeSync};
use music_transfer::controllers::power::{
    supported, BackendError, Platform, PowerController, PowerControllerImpl,
};
use music_transfer::controllers::volume::VolumeLevel;

#[test]
fn empty_config_has_no_section() {
    let config = Config::empty();
    assert!(config.spotify_creds.is_none());
    assert!(config.spotify_transfer.is_none());
    assert!(config.volume_sync.is_none());
}

#[test]
fn config_sections_hold_plain_values() {
    let config = Config {
        spotify_creds: Some(SpotifyCreds {
            spotify_client_id: String::from("id"),
            spotify_client_secret: String::from("secret"),
            spotify_redirect_uri: String::from("http://localhost:8888/callback"),
        }),
        spotify_transfer: Some(SpotifyTransfer {
            spotify_name_remote: String::from("Sofa"),
            spotify_name_local: String::from("Desk"),
        }),
        volume_sync: Some(VolumeSync { remote_host: String::from("sofa.local"), remote_port: 4000 }),
    };
    assert_eq!(config.spotify_creds.unwrap().spotify_client_id, "id");
    assert_eq!(config.spotify_transfer.unwrap().spotify_name_local, "Desk");
    assert_eq!(config.volume_sync.unwrap().remote_port, 4000);
}

#[test]
fn power_handle_is_always_made() {
    assert_eq!(PowerControllerImpl::new_system_default(), Ok(PowerControllerImpl {}));
}

#[test]
fn waking_moves_the_pointer_and_back() {
    let moves = PowerControllerImpl {}.wake_screen();
    assert_eq!(moves, [(0, 1), (0, -1)]);
    assert_eq!(moves[0].0 + moves[1].0, 0);
    assert_eq!(moves[0].1 + moves[1].1, 0);
    let controller = PowerController::new_system_default(Platform::Windows).unwrap();
    assert_eq!(controller.wake_screen(), moves);
}

#[test]
fn backends_exist_on_windows_only() {
    assert_eq!(supported(Platform::Windows), Ok(()));
    assert_eq!(supported(Platform::Other), Err(BackendError::Unsupported));
    assert_eq!(
        PowerController::new_system_default(Platform::Windows),
        Ok(PowerController(PowerControllerImpl {}))
    );
    assert_eq!(
        PowerController::new_system_default(Platform::Other),
        Err(BackendError::Unsupported)
    );
}

#[test]
fn backend_errors_have_messages() {
    assert_eq!(
        BackendError::Unsupported.message(),
        "no volume controller is currently implemented for this platform. consider opening a PR?"
    );
    assert_eq!(BackendError::Failed.message(), "the platform's backend failed");
}

#[test]
fn level_keeps_its_bits() {
    for v in [0.0f32, 0.25, 0.5, 1.0, 0.1, 1.0 / 3.0] {
        let level = VolumeLevel::from_bits(v.to_bits());
        assert_eq!(level.to_bits(), v.to_bits());
        assert_eq!(f32::from_bits(level.to_bits()), v);
    }
    assert_eq!(VolumeLevel::from_bits(0x3f80_0000).to_bits(), 0x3f80_0000);
    assert_ne!(VolumeLevel::from_bits(1), VolumeLevel::from_bits(2));
}
