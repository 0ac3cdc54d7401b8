use ears::command::Command;
use ears::states::{State, Transport, AL_INITIAL, AL_PAUSED, AL_PLAYING, AL_STOPPED};

const STATES: [State; 4] = [State::Initial, State::Playing, State::Paused, State::Stopped];

#[test]
fn state_from_code_names_the_four_states() {
    assert_eq!(State::from_code(AL_INITIAL), Some(State::Initial));
    assert_eq!(State::from_code(AL_PLAYING), Some(State::Playing));
    assert_eq!(State::from_code(AL_PAUSED), Some(State::Paused));
    assert_eq!(State::from_code(AL_STOPPED), Some(State::Stopped));
    assert_eq!(State::from_code(0x1011), Some(State::Initial));
    assert_eq!(State::from_code(0x1012), Some(State::Playing));
    assert_eq!(State::from_code(0x1013), Some(State::Paused));
    assert_eq!(State::from_code(0x1014), Some(State::Stopped));
}

#[test]
fn state_from_code_rejects_other_numbers() {
    assert_eq!(State::from_code(0), None);
    assert_eq!(State::from_code(0x1010), None);
    assert_eq!(State::from_code(0x1015), None);
    assert_eq!(State::from_code(-1), None);
    assert_eq!(State::from_code(i32::MAX), None);
}

#[test]
fn state_code_round_trip() {
    for state in STATES {
        assert_eq!(State::from_code(state.code()), Some(state));
    }
    assert_eq!(State::Stopped.code(), 0x1014);
}

#[test]
fn only_playing_is_playing() {
    assert!(State::Playing.is_playing());
    assert!(!State::Initial.is_playing());
    assert!(!State::Paused.is_playing());
    assert!(!State::Stopped.is_playing());
}

#[test]
fn play_leads_to_playing_from_every_state() {
    for state in STATES {
        assert_eq!(state.after(Transport::Play), State::Playing);
    }
}

#[test]
fn pause_only_moves_a_playing_source() {
    assert_eq!(State::Playing.after(Transport::Pause), State::Paused);
    assert_eq!(State::Initial.after(Transport::Pause), State::Initial);
    assert_eq!(State::Paused.after(Transport::Pause), State::Paused);
    assert_eq!(State::Stopped.after(Transport::Pause), State::Stopped);
}

#[test]
fn stop_leads_to_stopped_from_every_state_but_initial() {
    assert_eq!(State::Playing.after(Transport::Stop), State::Stopped);
    assert_eq!(State::Paused.after(Transport::Stop), State::Stopped);
    assert_eq!(State::Stopped.after(Transport::Stop), State::Stopped);
    assert_eq!(State::Initial.after(Transport::Stop), State::Initial);
}

#[test]
fn only_three_commands_are_transport_commands() {
    assert_eq!(Command::Play { source: 1 }.transport(), Some(Transport::Play));
    assert_eq!(Command::Pause { source: 1 }.transport(), Some(Transport::Pause));
    assert_eq!(Command::Stop { source: 1 }.transport(), Some(Transport::Stop));
    assert_eq!(Command::QueryState { source: 1 }.transport(), None);
    assert_eq!(Command::Bind { source: 1, buffer: 0 }.transport(), None);
    assert_eq!(Command::DeleteSource { source: 1 }.transport(), None);
}
