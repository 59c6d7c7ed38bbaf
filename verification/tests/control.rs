use twitch_controller::config::{first_of, ConfigError};
use twitch_controller::keyboard::{
    create_global_listener, get_exit_cancellation_token, ControlAction, GlobalListener,
    InputEvent, Key, FORCED_EXIT_STATUS,
};
use yaml_rust::YamlLoader;

fn listener_of(text: &str) -> Result<GlobalListener, ConfigError> {
    create_global_listener(&first_of(YamlLoader::load_from_str(text).ok()).unwrap())
}

#[test]
fn the_first_exit_press_shuts_down_and_the_second_forces_the_exit() {
    let mut listener = GlobalListener::new(Key::Escape, Key::F12);
    assert!(!listener.exit_requested());
    assert_eq!(listener.on_event(InputEvent::KeyPress(Key::Escape)), ControlAction::Shutdown);
    assert!(listener.exit_requested());
    assert_eq!(listener.on_event(InputEvent::KeyPress(Key::Escape)), ControlAction::ForceExit(10));
    assert_eq!(listener.on_event(InputEvent::KeyPress(Key::Escape)), ControlAction::ForceExit(10));
    assert!(listener.exit_requested());
    assert_eq!(FORCED_EXIT_STATUS, 10);
}

#[test]
fn every_pause_press_flips_the_flag() {
    let mut listener = GlobalListener::new(Key::Escape, Key::F12);
    assert!(!listener.is_paused());
    assert_eq!(listener.on_event(InputEvent::KeyPress(Key::F12)), ControlAction::SetPaused(true));
    assert!(listener.is_paused());
    assert_eq!(listener.on_event(InputEvent::KeyPress(Key::F12)), ControlAction::SetPaused(false));
    assert!(!listener.is_paused());
    assert_eq!(listener.on_event(InputEvent::KeyPress(Key::F12)), ControlAction::SetPaused(true));
    assert!(listener.is_paused());
    assert!(!listener.exit_requested());
}

#[test]
fn other_events_are_ignored() {
    let mut listener = GlobalListener::new(Key::Escape, Key::F12);
    assert_eq!(listener.on_event(InputEvent::KeyRelease(Key::Escape)), ControlAction::Nothing);
    assert_eq!(listener.on_event(InputEvent::KeyRelease(Key::F12)), ControlAction::Nothing);
    assert_eq!(listener.on_event(InputEvent::KeyPress(Key::KeyA)), ControlAction::Nothing);
    assert_eq!(listener.on_event(InputEvent::Other), ControlAction::Nothing);
    assert!(!listener.is_paused());
    assert!(!listener.exit_requested());
}

#[test]
fn exit_and_pause_do_not_disturb_each_other() {
    let mut listener = GlobalListener::new(Key::Escape, Key::F12);
    assert_eq!(listener.on_event(InputEvent::KeyPress(Key::F12)), ControlAction::SetPaused(true));
    assert_eq!(listener.on_event(InputEvent::KeyPress(Key::Escape)), ControlAction::Shutdown);
    assert!(listener.is_paused());
    assert_eq!(listener.on_event(InputEvent::KeyPress(Key::F12)), ControlAction::SetPaused(false));
    assert!(listener.exit_requested());
    assert_eq!(listener.on_event(InputEvent::KeyPress(Key::Escape)), ControlAction::ForceExit(10));
    assert!(!listener.is_paused());
}

#[test]
fn a_key_that_is_both_is_the_exit_key() {
    let mut listener = GlobalListener::new(Key::F1, Key::F1);
    assert_eq!(listener.on_event(InputEvent::KeyPress(Key::F1)), ControlAction::Shutdown);
    assert!(!listener.is_paused());
    assert_eq!(listener.on_event(InputEvent::KeyPress(Key::F1)), ControlAction::ForceExit(10));
    assert!(!listener.is_paused());
}

#[test]
fn the_listener_takes_its_keys_from_the_configuration() {
    let mut listener = listener_of("control_keys:\n  exit: Escape\n  pause: f12\n").unwrap();
    assert!(!listener.is_paused());
    assert!(!listener.exit_requested());
    assert_eq!(listener.on_event(InputEvent::KeyPress(Key::F12)), ControlAction::SetPaused(true));
    assert_eq!(listener.on_event(InputEvent::KeyPress(Key::Escape)), ControlAction::Shutdown);
    assert_eq!(listener.on_event(InputEvent::KeyPress(Key::F11)), ControlAction::Nothing);
}

#[test]
fn missing_or_unresolved_control_keys_are_refused() {
    assert_eq!(listener_of("actions: {}\n").unwrap_err(), ConfigError::ExitKeyMissing);
    assert_eq!(
        listener_of("control_keys:\n  pause: f12\n").unwrap_err(),
        ConfigError::ExitKeyMissing
    );
    assert_eq!(
        listener_of("control_keys:\n  exit: 5\n  pause: f12\n").unwrap_err(),
        ConfigError::ExitKeyMissing
    );
    assert_eq!(
        listener_of("control_keys:\n  exit: nokey\n  pause: f12\n").unwrap_err(),
        ConfigError::ExitKeyUnresolved
    );
    assert_eq!(
        listener_of("control_keys:\n  exit: Escape\n").unwrap_err(),
        ConfigError::PauseKeyMissing
    );
    assert_eq!(
        listener_of("control_keys:\n  exit: Escape\n  pause: a+b\n").unwrap_err(),
        ConfigError::PauseKeyUnresolved
    );
    // The exit key is looked at first.
    assert_eq!(
        listener_of("control_keys:\n  exit: nokey\n  pause: nokey\n").unwrap_err(),
        ConfigError::ExitKeyUnresolved
    );
    assert_eq!(listener_of("control_keys: [Escape, f12]\n").unwrap_err(), ConfigError::ExitKeyMissing);
}

#[test]
fn a_listener_is_built_from_the_two_names() {
    let mut listener = GlobalListener::from_names(Some("Escape"), Some("F12")).unwrap();
    assert_eq!(listener.on_event(InputEvent::KeyPress(Key::F12)), ControlAction::SetPaused(true));
    assert_eq!(listener.on_event(InputEvent::KeyPress(Key::Escape)), ControlAction::Shutdown);
    assert_eq!(
        GlobalListener::from_names(None, Some("F12")).unwrap_err(),
        ConfigError::ExitKeyMissing
    );
    assert_eq!(GlobalListener::from_names(None, None).unwrap_err(), ConfigError::ExitKeyMissing);
    assert_eq!(
        GlobalListener::from_names(Some("nokey"), None).unwrap_err(),
        ConfigError::ExitKeyUnresolved
    );
    assert_eq!(
        GlobalListener::from_names(Some("Escape"), None).unwrap_err(),
        ConfigError::PauseKeyMissing
    );
    assert_eq!(
        GlobalListener::from_names(Some("Escape"), Some("")).unwrap_err(),
        ConfigError::PauseKeyUnresolved
    );
}

#[test]
fn the_caller_cancels_the_exit_signal_when_asked_to_shut_down() {
    let mut listener = GlobalListener::new(Key::Escape, Key::F12);
    let signal = get_exit_cancellation_token(&listener);
    assert!(!signal.is_cancelled());
    assert_eq!(listener.on_event(InputEvent::KeyPress(Key::F12)), ControlAction::SetPaused(true));
    assert_eq!(listener.on_event(InputEvent::KeyRelease(Key::Escape)), ControlAction::Nothing);
    assert!(!signal.is_cancelled());
    assert_eq!(listener.on_event(InputEvent::KeyPress(Key::Escape)), ControlAction::Shutdown);
    // The listener decides; the signal is the caller's to give.
    assert!(!signal.is_cancelled());
    signal.cancel();
    assert!(signal.is_cancelled());
    assert!(get_exit_cancellation_token(&listener).is_cancelled());
    assert_eq!(listener.on_event(InputEvent::KeyPress(Key::Escape)), ControlAction::ForceExit(10));
}

#[test]
fn every_listener_has_an_exit_signal_of_its_own() {
    let first = GlobalListener::new(Key::Escape, Key::F12);
    let second = GlobalListener::new(Key::Escape, Key::F12);
    get_exit_cancellation_token(&first).cancel();
    assert!(get_exit_cancellation_token(&first).is_cancelled());
    assert!(!get_exit_cancellation_token(&second).is_cancelled());
}

#[test]
fn the_token_handed_out_is_the_exit_signal_of_the_listener() {
    let mut first = GlobalListener::new(Key::Escape, Key::F12);
    let second = GlobalListener::new(Key::Escape, Key::F12);
    let token = get_exit_cancellation_token(&first);
    assert_eq!(token, get_exit_cancellation_token(&first));
    assert_ne!(token, get_exit_cancellation_token(&second));
    assert_eq!(first.on_event(InputEvent::KeyPress(Key::F12)), ControlAction::SetPaused(true));
    assert_eq!(first.on_event(InputEvent::KeyPress(Key::Escape)), ControlAction::Shutdown);
    assert_eq!(token, get_exit_cancellation_token(&first));
}
