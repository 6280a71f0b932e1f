use near_macros::{Error, Event, Pausable, PauseGate, StatusMessage};

#[test]
fn should_pause() {
    let mut contract = StatusMessage::without_setup(String::from("SOME DATA"));

    let got_data = contract.get_data().unwrap();

    assert_eq!(got_data, String::from("SOME DATA"));

    contract.toggle_pause();

    assert_eq!(contract.pause_status(), true);

    let error = contract.get_data().unwrap_err();
    assert_eq!(error.message(), "Function is paused");
    assert_eq!(error, Error::OperationPaused);
}

#[test]
fn should_unpause() {
    let mut contract = StatusMessage::without_setup(String::from("SOME DATA"));

    let got_data = contract.get_data().unwrap();

    assert_eq!(got_data, String::from("SOME DATA"));

    contract.toggle_pause();

    assert_eq!(contract.pause_status(), true);

    contract.toggle_pause();

    assert_eq!(contract.pause_status(), false);

    assert_eq!(contract.get_data().unwrap(), String::from("SOME DATA"));
}

#[test]
fn lib_should_pause() {
    let mut gate = PauseGate::new();

    assert_eq!(gate.when_not_paused(), Ok(()));

    assert_eq!(gate.toggle_pause(), Event::Paused);

    assert_eq!(gate.pause_status(), true);

    let error = gate.when_not_paused().unwrap_err();
    assert_eq!(error.message(), "Function is paused");
}

#[test]
fn lib_should_unpause() {
    let mut gate = PauseGate::new();

    assert_eq!(gate.when_not_paused(), Ok(()));

    assert_eq!(gate.toggle_pause(), Event::Paused);

    assert_eq!(gate.pause_status(), true);

    assert_eq!(gate.toggle_pause(), Event::Unpaused);

    assert_eq!(gate.pause_status(), false);

    assert_eq!(gate.when_not_paused(), Ok(()));
}

#[test]
fn a_host_starts_running() {
    assert!(!PauseGate::new().pause_status());
    assert!(!StatusMessage::without_setup(String::new()).pause_status());
}

#[test]
fn pause_and_unpause_do_not_depend_on_the_state() {
    let mut gate = PauseGate::new();
    assert_eq!(gate.unpause(), Event::Unpaused);
    assert!(!gate.pause_status());
    assert_eq!(gate.pause(), Event::Paused);
    assert_eq!(gate.pause(), Event::Paused);
    assert!(gate.pause_status());
    assert_eq!(gate.when_not_paused(), Err(Error::OperationPaused));
    assert_eq!(gate.unpause(), Event::Unpaused);
    assert_eq!(gate.unpause(), Event::Unpaused);
    assert!(!gate.pause_status());
}

#[test]
fn two_toggles_restore_either_state() {
    let mut gate = PauseGate::new();
    gate.toggle_pause();
    gate.toggle_pause();
    assert!(!gate.pause_status());
    gate.pause();
    gate.toggle_pause();
    gate.toggle_pause();
    assert!(gate.pause_status());
}

#[test]
fn guarded_call_fails_while_paused_and_works_again_after() {
    let mut contract = StatusMessage::without_setup(String::from("SOME DATA"));
    assert_eq!(contract.pause(), Event::Paused);
    assert_eq!(contract.get_data(), Err(Error::OperationPaused));
    assert_eq!(contract.when_not_paused(), Err(Error::OperationPaused));
    assert_eq!(contract.unpause(), Event::Unpaused);
    assert_eq!(contract.get_data(), Ok(String::from("SOME DATA")));
    assert_eq!(contract.when_not_paused(), Ok(()));
}
