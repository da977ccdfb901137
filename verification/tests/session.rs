use gvm_led::protocol::{encode, Command, PowerState};
use gvm_led::session::{ConnectionSession, ConnectionState};
use gvm_led::settings::{LightMode, LightSettingsState};

#[test]
fn fresh_session_is_connected_with_default_baseline() {
    let session = ConnectionSession::new();
    assert_eq!(session.last_applied, LightSettingsState::default());
    assert!(matches!(session.mac, gvm_led::identity::MacAddress::Unknown));
    assert_eq!(session.state, ConnectionState::Connected);
}

#[test]
fn initial_frames_write_the_whole_default_snapshot() {
    let session = ConnectionSession::new();
    let frames = session.initial_frames();
    assert_eq!(
        frames,
        vec![
            encode(Command::Power(PowerState::On)),
            encode(Command::ColorTemperature(0)),
            encode(Command::Intensity(50)),
            encode(Command::Mode(LightMode::Cct)),
        ]
    );
}

#[test]
fn applying_settings_emits_the_diff_and_moves_the_baseline() {
    let mut session = ConnectionSession::new();
    let next = LightSettingsState {
        intensity: 80,
        ..LightSettingsState::default()
    };
    let frames = session.apply_settings(&next);
    assert_eq!(frames, vec![encode(Command::Intensity(80))]);
    assert_eq!(session.last_applied, next);

    let again = session.apply_settings(&next);
    assert_eq!(again, Vec::<Vec<u8>>::new());
}

#[test]
fn liveness_loss_triggers_the_reconnect_states() {
    let mut session = ConnectionSession::new();
    session.on_liveness(true);
    assert_eq!(session.state, ConnectionState::Connected);
    session.on_liveness(false);
    assert_eq!(session.state, ConnectionState::Disconnected);
    session.begin_reconnect();
    assert_eq!(session.state, ConnectionState::Reconnecting);
    session.on_reconnect_attempt(false);
    assert_eq!(session.state, ConnectionState::Reconnecting);
    session.on_reconnect_attempt(true);
    assert_eq!(session.state, ConnectionState::Connected);
}

#[test]
fn address_is_learned_once_and_kept() {
    let mut session = ConnectionSession::new();
    assert!(session.needs_mac());

    session.learn_mac(&vec![(0x0001u16, vec![0x01, 0x02])]);
    assert!(session.needs_mac());

    session.learn_mac(&vec![(0x2211u16, vec![0x33, 0x44, 0x55, 0x66])]);
    assert!(!session.needs_mac());
    assert_eq!(session.mac.display_bytes(), b"11:22:33:44:55:66".to_vec());

    session.learn_mac(&vec![(0xffffu16, vec![0xff, 0xff, 0xff, 0xff])]);
    assert_eq!(session.mac.display_bytes(), b"11:22:33:44:55:66".to_vec());
}
