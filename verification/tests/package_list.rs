use uad_ng::batch::CommandOutcome;
use uad_ng::device::{Phone, User};
use uad_ng::effect::Effect;
use uad_ng::gui::views::list::{List, LoadingState, Message};
use uad_ng::packages::{PackageInfo, PackageRow, PackageState};
use uad_ng::release::UadListState;

fn user(id: u16, index: usize, protected: bool) -> User {
    User { id, index, protected }
}

fn phone(id: &str) -> Phone {
    Phone {
        model: format!("model {id}"),
        android_sdk: 30,
        user_list: vec![user(0, 0, false), user(10, 1, false)],
        adb_id: id.to_string(),
    }
}

fn rows(flags: &[bool]) -> Vec<PackageRow> {
    flags.iter().map(|flag| PackageRow { state: PackageState::Enabled, selected: *flag }).collect()
}

fn flags(list: &List) -> Vec<Vec<bool>> {
    list.phone_packages
        .iter()
        .map(|partition| partition.iter().map(|row| row.selected).collect())
        .collect()
}

fn loaded() -> List {
    let mut list = List::default();
    let mut state = UadListState::Done;
    list.update(
        &phone("A"),
        &mut state,
        Message::PackagesLoaded {
            device_id: "A".to_string(),
            packages: vec![rows(&[true, false]), rows(&[false, true, true])],
        },
    );
    list
}

#[test]
fn list_starts_out_empty() {
    let list = List::default();
    assert_eq!(list.device_id, "");
    assert!(list.phone_packages.is_empty());
    assert_eq!(list.selected_user, None);
    assert_eq!(list.loading_state, LoadingState::FindingPhones);
    assert!(!list.is_adb_satisfied);
}

#[test]
fn descriptions_are_asked_for() {
    let mut list = List::default();
    let mut state = UadListState::Failed;
    let effects = list.update(&phone("A"), &mut state, Message::LoadUadList(true));
    assert_eq!(effects, vec![Effect::LoadUadList { remote: true }]);
    assert_eq!(list.loading_state, LoadingState::DownloadingList);
    assert_eq!(state, UadListState::Failed);
    let effects = list.update(&phone("A"), &mut state, Message::LoadUadList(false));
    assert_eq!(effects, vec![Effect::LoadUadList { remote: false }]);
}

#[test]
fn packages_are_asked_for_where_a_device_is_selected() {
    let mut list = List::default();
    let mut state = UadListState::Downloading;
    let effects =
        list.update(&phone("A"), &mut state, Message::LoadPhonePackages(UadListState::Done));
    assert_eq!(effects, vec![Effect::LoadPackages { device_id: "A".to_string() }]);
    assert_eq!(list.loading_state, LoadingState::LoadingPackages);
    assert_eq!(state, UadListState::Done);

    let effects = list.update(
        &Phone::default(),
        &mut state,
        Message::LoadPhonePackages(UadListState::Failed),
    );
    assert!(effects.is_empty());
    assert_eq!(list.loading_state, LoadingState::FindingPhones);
    assert_eq!(state, UadListState::Failed);
}

#[test]
fn new_load_discards_the_packages_that_are_held() {
    let mut list = loaded();
    let mut state = UadListState::Downloading;
    list.update(&phone("A"), &mut state, Message::LoadPhonePackages(UadListState::Done));
    assert_eq!(list.device_id, "");
    assert!(list.phone_packages.is_empty());
    assert_eq!(list.selected_user, None);
    assert_eq!(list.loading_state, LoadingState::LoadingPackages);

    let mut list = loaded();
    list.update(&phone("A"), &mut state, Message::ADBSatisfied(true));
    list.discard();
    assert!(list.phone_packages.is_empty());
    assert!(list.is_adb_satisfied);
    assert_eq!(list.loading_state, LoadingState::Ready);
}

#[test]
fn loaded_packages_are_shown_for_the_first_user() {
    let list = loaded();
    assert_eq!(list.device_id, "A");
    assert_eq!(flags(&list), vec![vec![true, false], vec![false, true, true]]);
    assert_eq!(list.selected_user, Some(user(0, 0, false)));
    assert_eq!(list.loading_state, LoadingState::Ready);
}

#[test]
fn packages_of_another_device_are_dropped() {
    let mut list = loaded();
    let mut state = UadListState::Done;
    let effects = list.update(
        &phone("A"),
        &mut state,
        Message::PackagesLoaded { device_id: "B".to_string(), packages: vec![rows(&[true])] },
    );
    assert!(effects.is_empty());
    assert_eq!(list, loaded());
    list.update(
        &Phone::default(),
        &mut state,
        Message::PackagesLoaded { device_id: String::new(), packages: vec![rows(&[true])] },
    );
    assert_eq!(list, loaded());
}

#[test]
fn toggle_all_reaches_the_user_that_is_shown() {
    let mut list = loaded();
    let mut state = UadListState::Done;
    list.update(&phone("A"), &mut state, Message::ToggleAllSelected(true));
    assert_eq!(flags(&list), vec![vec![true, true], vec![false, true, true]]);
    list.update(&phone("A"), &mut state, Message::UserSelected(user(10, 1, false)));
    list.update(&phone("A"), &mut state, Message::ToggleAllSelected(false));
    assert_eq!(flags(&list), vec![vec![true, true], vec![false, false, false]]);
}

#[test]
fn clearing_deselects_everything() {
    let mut list = loaded();
    let mut state = UadListState::Done;
    list.update(&phone("A"), &mut state, Message::ClearSelectedPackages);
    assert_eq!(flags(&list), vec![vec![false, false], vec![false, false, false]]);
}

#[test]
fn one_package_is_toggled_where_it_exists() {
    let mut list = loaded();
    let mut state = UadListState::Done;
    list.update(
        &phone("A"),
        &mut state,
        Message::ToggleSelection(PackageInfo { i_user: 1, index: 0 }, true),
    );
    assert_eq!(flags(&list), vec![vec![true, false], vec![true, true, true]]);
    list.update(
        &phone("A"),
        &mut state,
        Message::ToggleSelection(PackageInfo { i_user: 0, index: 9 }, true),
    );
    assert_eq!(flags(&list), vec![vec![true, false], vec![true, true, true]]);
}

#[test]
fn completion_is_shown_for_the_selected_device_only() {
    let outcome = |device: &str| CommandOutcome {
        device_id: device.to_string(),
        package: PackageInfo { i_user: 0, index: 0 },
        error: None,
    };
    let mut list = loaded();
    let mut state = UadListState::Done;
    list.update(&phone("A"), &mut state, Message::RestoringDevice(outcome("B")));
    assert_eq!(list.loading_state, LoadingState::Ready);
    list.update(&phone("A"), &mut state, Message::RestoringDevice(outcome("A")));
    assert_eq!(list.loading_state, LoadingState::RestoringDevice);
}

#[test]
fn bridge_and_update_failure_are_noted() {
    let mut list = loaded();
    let mut state = UadListState::Done;
    list.update(&phone("A"), &mut state, Message::ADBSatisfied(true));
    assert!(list.is_adb_satisfied);
    list.update(&phone("A"), &mut state, Message::UpdateFailed);
    assert_eq!(list.loading_state, LoadingState::FailedToUpdate);
}
