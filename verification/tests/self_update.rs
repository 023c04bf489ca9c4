use uad_ng::release::{Release, SelfUpdateState, SelfUpdateStatus};

fn release(name: &str) -> Release {
    Release { name: name.to_string() }
}

#[test]
fn lookup_goes_from_idle_to_done() {
    let mut state = SelfUpdateState::new();
    assert_eq!(state.status, SelfUpdateStatus::Idle);
    assert!(state.start_check());
    assert_eq!(state.status, SelfUpdateStatus::Checking);
    state.finish_check(Ok(Some(release("v2"))));
    assert_eq!(state.status, SelfUpdateStatus::Done);
    assert_eq!(state.latest_release, Some(release("v2")));
}

#[test]
fn lookup_that_fails_ends_in_failure() {
    let mut state = SelfUpdateState::new();
    state.start_check();
    state.finish_check(Err(()));
    assert_eq!(state.status, SelfUpdateStatus::Failed);
    assert_eq!(state.latest_release, None);
    assert!(!state.start_update());
    assert_eq!(state.status, SelfUpdateStatus::Failed);
}

#[test]
fn answer_that_nothing_waits_for_is_dropped() {
    let mut state = SelfUpdateState::new();
    state.finish_check(Ok(Some(release("v2"))));
    assert_eq!(state, SelfUpdateState::new());
}

#[test]
fn update_starts_only_from_a_release_that_was_found() {
    let mut state = SelfUpdateState::new();
    assert!(!state.start_update());
    state.start_check();
    assert!(!state.start_update());
    state.finish_check(Ok(None));
    assert_eq!(state.status, SelfUpdateStatus::Done);
    assert!(!state.start_update());
    assert_eq!(state.status, SelfUpdateStatus::Done);

    state.start_check();
    state.finish_check(Ok(Some(release("v2"))));
    assert!(state.start_update());
    assert_eq!(state.status, SelfUpdateStatus::Updating);
    assert_eq!(state.latest_release, Some(release("v2")));
}

#[test]
fn update_under_way_ends_in_failure_or_not_at_all() {
    let mut state = SelfUpdateState::new();
    state.start_check();
    state.finish_check(Ok(Some(release("v2"))));
    state.start_update();
    assert!(!state.start_check());
    assert_eq!(state.status, SelfUpdateStatus::Updating);
    state.finish_check(Err(()));
    assert_eq!(state.status, SelfUpdateStatus::Updating);
    assert!(!state.start_update());
    state.fail_update();
    assert_eq!(state.status, SelfUpdateStatus::Failed);
    assert_eq!(state.latest_release, Some(release("v2")));
}

#[test]
fn failure_without_an_update_changes_nothing() {
    let mut state = SelfUpdateState::new();
    state.fail_update();
    assert_eq!(state, SelfUpdateState::new());
    state.start_check();
    state.fail_update();
    assert_eq!(state.status, SelfUpdateStatus::Checking);
}

#[test]
fn new_lookup_replaces_what_was_known() {
    let mut state = SelfUpdateState::new();
    state.start_check();
    state.finish_check(Ok(Some(release("v2"))));
    assert!(state.start_check());
    assert_eq!(state.status, SelfUpdateStatus::Checking);
    assert_eq!(state.latest_release, None);
}
