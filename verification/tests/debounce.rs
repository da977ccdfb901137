use gvm_led::debounce::{Debouncer, DEBOUNCE_WINDOW_MS};
use gvm_led::settings::LightSettingsState;

fn with_intensity(intensity: u8) -> LightSettingsState {
    LightSettingsState {
        intensity,
        ..LightSettingsState::default()
    }
}

#[test]
fn empty_buffer_releases_nothing() {
    let mut debouncer = Debouncer::new();
    assert_eq!(debouncer.poll(0), None);
    assert_eq!(debouncer.poll(u64::MAX), None);
}

#[test]
fn update_is_held_until_the_window_elapses() {
    let mut debouncer = Debouncer::new();
    debouncer.submit(with_intensity(10), 1000);
    assert_eq!(debouncer.poll(1000), None);
    assert_eq!(debouncer.poll(1000 + DEBOUNCE_WINDOW_MS - 1), None);
    assert_eq!(
        debouncer.poll(1000 + DEBOUNCE_WINDOW_MS),
        Some(with_intensity(10))
    );
    assert_eq!(debouncer.poll(1000 + DEBOUNCE_WINDOW_MS), None);
}

#[test]
fn last_value_wins_within_a_window() {
    let mut debouncer = Debouncer::new();
    debouncer.submit(with_intensity(10), 1000);
    debouncer.submit(with_intensity(20), 1050);
    debouncer.submit(with_intensity(30), 1080);
    assert_eq!(debouncer.poll(1100), None);
    assert_eq!(debouncer.poll(1180), Some(with_intensity(30)));
}

#[test]
fn every_submission_restarts_the_window() {
    let mut debouncer = Debouncer::new();
    debouncer.submit(with_intensity(1), 0);
    debouncer.submit(with_intensity(2), 90);
    assert_eq!(debouncer.poll(100), None);
    assert_eq!(debouncer.poll(190), Some(with_intensity(2)));
}
