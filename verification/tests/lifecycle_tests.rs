use pairing_core::lifecycle::{
    select_port, ServerState, StartError, PORT_RANGE_END, PORT_RANGE_START,
};
use pairing_core::session::QrManager;

#[test]
fn single_flight_admits_one_winner() {
    let mut state = ServerState::new();
    assert!(state.begin_starting(), "first caller wins");
    assert!(!state.begin_starting(), "second caller loses");
    assert!(!state.begin_starting(), "third caller loses too");
    state.finish_starting();
    assert!(state.begin_starting(), "after finish the race is open again");
}

#[test]
fn failed_start_does_not_wedge_future_attempts() {
    let mut state = ServerState::new();
    assert!(state.begin_starting());
    // The winner failed to bind and released the flag.
    state.finish_starting();
    assert_eq!(state.get_server_port(), None);
    assert!(state.begin_starting());
}

#[test]
fn all_callers_observe_the_same_port() {
    let mut state = ServerState::new();
    assert!(state.begin_starting());
    state.install_started(8082);
    assert_eq!(state.get_server_port(), Some(8082));
    assert_eq!(state.get_server_port(), Some(8082));
    assert_eq!(state.poll_started(0), Ok(Some(8082)));
}

#[test]
fn poll_gives_up_after_the_attempts_run_out() {
    let state = ServerState::new();
    assert_eq!(state.poll_started(3), Ok(None));
    assert!(matches!(state.poll_started(0), Err(StartError::StillStarting)));
}

#[test]
fn select_port_takes_first_free_candidate() {
    let n = (PORT_RANGE_END - PORT_RANGE_START + 1) as usize;
    let mut bind_ok = vec![false; n];
    bind_ok[3] = true;
    bind_ok[7] = true;
    assert_eq!(select_port(&bind_ok), Ok(8083));
    let all_free = vec![true; n];
    assert_eq!(select_port(&all_free), Ok(8080));
}

#[test]
fn exhausted_port_range_fails_explicitly() {
    let n = (PORT_RANGE_END - PORT_RANGE_START + 1) as usize;
    let occupied = vec![false; n];
    assert_eq!(select_port(&occupied), Err(StartError::NoAvailablePort));
}

#[test]
fn start_error_messages_name_the_cause() {
    assert_eq!(StartError::NoAvailablePort.message(), "no available port");
    assert_eq!(StartError::StillStarting.message(), "server is starting, retry shortly");
}

#[test]
fn registry_handle_is_reachable_for_mutation() {
    let mut state = ServerState::new();
    assert!(state.get_qr_manager().is_none());
    assert!(state.qr_manager_mut().is_none());
    state.set_qr_manager(QrManager::new(8085));
    let mgr = state.qr_manager_mut().expect("handle installed");
    mgr.put_session("tok-x".to_string(), "img-x", 0);
    assert_eq!(mgr.validate_session_at("tok-x", 1), Some("img-x".to_string()));
    assert!(state.get_qr_manager().is_some());
}
