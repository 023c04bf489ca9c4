use uad_ng::device::{find_device, reconcile, Phone, User};

fn user(id: u16, index: usize, protected: bool) -> User {
    User { id, index, protected }
}

fn phone(id: &str, sdk: u8) -> Phone {
    Phone {
        model: format!("model {id}"),
        android_sdk: sdk,
        user_list: vec![user(0, 0, false)],
        adb_id: id.to_string(),
    }
}

#[test]
fn no_selection_takes_the_first_device() {
    let list = vec![phone("A", 30), phone("B", 30)];
    assert_eq!(reconcile(None, &list), Some(phone("A", 30)));
}

#[test]
fn no_selection_and_no_device_stay_without_selection() {
    assert_eq!(reconcile(None, &Vec::new()), None);
}

#[test]
fn selected_device_is_kept_by_identity() {
    let list = vec![phone("A", 30), phone("B", 30), phone("C", 30)];
    let selected = phone("B", 30);
    assert_eq!(reconcile(Some(&selected), &list), Some(phone("B", 30)));
}

#[test]
fn selected_device_takes_the_fields_of_the_refresh() {
    let before = Phone {
        model: "old name".to_string(),
        android_sdk: 20,
        user_list: vec![user(0, 0, false)],
        adb_id: "B".to_string(),
    };
    let after = Phone {
        model: "new name".to_string(),
        android_sdk: 33,
        user_list: vec![user(0, 0, false), user(10, 1, true)],
        adb_id: "B".to_string(),
    };
    let list = vec![phone("A", 30), after.clone()];
    assert_eq!(reconcile(Some(&before), &list), Some(after));
}

#[test]
fn refresh_without_the_selected_device_selects_the_first() {
    let a = phone("A", 30);
    let list = vec![phone("B", 30), phone("C", 30)];
    assert_eq!(reconcile(Some(&a), &list), Some(phone("B", 30)));
}

#[test]
fn refresh_to_an_empty_list_drops_the_selection() {
    let a = phone("A", 30);
    assert_eq!(reconcile(Some(&a), &Vec::new()), None);
}

#[test]
fn reconciling_twice_changes_nothing() {
    let lists = vec![
        Vec::new(),
        vec![phone("A", 30)],
        vec![phone("B", 30), phone("C", 30), phone("A", 30)],
        vec![phone("B", 21), phone("B", 30)],
    ];
    for list in &lists {
        let once = reconcile(None, list);
        let twice = reconcile(once.as_ref(), list);
        assert_eq!(twice, once);
        let gone = phone("Z", 30);
        let once = reconcile(Some(&gone), list);
        let twice = reconcile(once.as_ref(), list);
        assert_eq!(twice, once);
        let there = phone("A", 1);
        let once = reconcile(Some(&there), list);
        let twice = reconcile(once.as_ref(), list);
        assert_eq!(twice, once);
    }
}

#[test]
fn of_two_devices_with_one_identity_the_first_is_found() {
    let list = vec![phone("A", 30), phone("B", 21), phone("B", 30)];
    assert_eq!(find_device(&list, &"B".to_string()), Some(1));
    assert_eq!(find_device(&list, &"C".to_string()), None);
    let selected = phone("B", 0);
    assert_eq!(reconcile(Some(&selected), &list), Some(phone("B", 21)));
}

#[test]
fn platform_decides_what_a_device_supports() {
    assert!(!phone("A", 20).supports_multi_user());
    assert!(phone("A", 21).supports_multi_user());
    assert!(!phone("A", 22).supports_disable_mode());
    assert!(phone("A", 23).supports_disable_mode());
}

#[test]
fn the_device_that_stands_for_none_has_no_identity() {
    let none = Phone::default();
    assert_eq!(none.adb_id, "");
    assert_eq!(none.android_sdk, 0);
    assert!(none.user_list.is_empty());
    assert_eq!(none.model, "fetching devices...");
}
