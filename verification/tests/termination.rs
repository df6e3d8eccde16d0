use zoraxy_plugin::termination::{termination_path, termination_status, TerminationState};

#[test]
fn termination_path_is_under_the_ui_path() {
    assert_eq!(termination_path("/ui"), "/ui/term");
    assert_eq!(termination_path("/ui/"), "/ui/term");
    assert_eq!(termination_path("/"), "/term");
    assert_eq!(termination_path(""), "/term");
}

#[test]
fn termination_status_codes() {
    assert_eq!(termination_status(true), 200);
    assert_eq!(termination_status(false), 500);
}

#[test]
fn signal_is_idempotent() {
    let mut state = TerminationState::new();
    assert!(!state.signaled);
    let already = state.signal();
    assert!(!already);
    assert!(state.signaled);
    let again = state.signal();
    assert!(again);
    assert!(state.signaled);
}
