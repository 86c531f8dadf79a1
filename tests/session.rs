use shifter::controller::PlaybackController;
use shifter::devices::is_virtual_device;
use shifter::session::{check_default_output, check_input_device, check_output_device, new_session, SetupError};
use shifter::state::PlaybackState;

#[test]
fn input_must_be_virtual() {
    assert_eq!(check_input_device("BlackHole 2ch"), Ok(()));
    assert_eq!(check_input_device("USB Mic"), Err(SetupError::InputNotVirtual));
}

#[test]
fn output_must_be_physical_and_distinct() {
    assert_eq!(check_output_device("Speakers", 2, 1), Ok(()));
    assert_eq!(check_output_device("Speakers", 1, 1), Err(SetupError::SameDevice));
    assert_eq!(check_output_device("Loopback", 2, 1), Err(SetupError::OutputIsVirtual));
    assert_eq!(check_default_output("Soundflower"), Err(SetupError::DefaultOutputIsVirtual));
    assert_eq!(check_default_output("Speakers"), Ok(()));
    assert!(!is_virtual_device("Speakers"));
}

#[test]
fn session_checks_format() {
    let r: Result<PlaybackController<f32>, SetupError> = new_session(0, 0, 2, 60, 0);
    assert_eq!(r.err(), Some(SetupError::UnknownFormat));
    let r: Result<PlaybackController<f32>, SetupError> = new_session(48_000, 48_000, 0, 60, 0);
    assert_eq!(r.err(), Some(SetupError::UnknownFormat));
    let r: Result<PlaybackController<f32>, SetupError> = new_session(48_000, 48_000, 70_000, 60, 0);
    assert_eq!(r.err(), Some(SetupError::UnknownFormat));
    let r: Result<PlaybackController<f32>, SetupError> = new_session(48_000, 44_100, 2, 60, 0);
    assert_eq!(r.err(), Some(SetupError::SampleRateMismatch));
    let r: Result<PlaybackController<f32>, SetupError> = new_session(48_000, 48_000, 2, 0, 0);
    assert_eq!(r.err(), Some(SetupError::BadBufferSize));
}

#[test]
fn session_builds_live_controller() {
    let c: PlaybackController<f32> = match new_session(48_000, 48_000, 2, 60, 250) {
        Ok(c) => c,
        Err(e) => panic!("setup failed: {:?}", e),
    };
    assert_eq!(c.state(), PlaybackState::Live);
    assert_eq!(c.ring().capacity(), 48_000 * 2 * 60);
    assert_eq!(c.base_delay_samples(), 24_000);
    assert_eq!(c.volume(), 1_000);
}
