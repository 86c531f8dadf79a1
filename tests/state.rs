use shifter::state::PlaybackState;

#[test]
fn from_u8_decodes_ordinals() {
    assert_eq!(PlaybackState::from_u8(0), PlaybackState::Live);
    assert_eq!(PlaybackState::from_u8(1), PlaybackState::Paused);
    assert_eq!(PlaybackState::from_u8(2), PlaybackState::TimeShifted);
    assert_eq!(PlaybackState::from_u8(3), PlaybackState::Live);
    assert_eq!(PlaybackState::from_u8(255), PlaybackState::Live);
}

#[test]
fn labels_and_symbols() {
    assert_eq!(PlaybackState::Live.label(), "LIVE");
    assert_eq!(PlaybackState::Paused.label(), "PAUSED");
    assert_eq!(PlaybackState::TimeShifted.label(), "TIME-SHIFTED");
    assert_eq!(PlaybackState::Live.symbol(), ">>");
    assert_eq!(PlaybackState::Paused.symbol(), "||");
    assert_eq!(PlaybackState::TimeShifted.symbol(), "> ");
}
