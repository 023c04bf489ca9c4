use uad_ng::batch::{Batch, CommandOutcome, PackageRestore};
use uad_ng::config::{
    find_settings, load, save, BackupSettings, Config, DeviceSettings, GeneralSettings,
    RestoreReport,
};
use uad_ng::device::{Phone, User};
use uad_ng::effect::{Command, Effect};
use uad_ng::gui::views::settings::{Message, PopUpModal, Settings};
use uad_ng::packages::PackageInfo;

fn user(id: u16, index: usize, protected: bool) -> User {
    User { id, index, protected }
}

fn phone(id: &str, sdk: u8) -> Phone {
    Phone {
        model: format!("model {id}"),
        android_sdk: sdk,
        user_list: vec![user(0, 0, false), user(10, 1, true)],
        adb_id: id.to_string(),
    }
}

fn general() -> GeneralSettings {
    GeneralSettings {
        theme: "Lupin".to_string(),
        expert_mode: false,
        backup_folder: "/backups".to_string(),
    }
}

fn kept(id: &str, disable_mode: bool, multi_user_mode: bool) -> DeviceSettings {
    DeviceSettings {
        device_id: id.to_string(),
        disable_mode,
        multi_user_mode,
        backup: BackupSettings::default(),
    }
}

fn fresh_backup(phone: &Phone) -> BackupSettings {
    BackupSettings {
        backups: Vec::new(),
        selected: None,
        users: phone.user_list.clone(),
        selected_user: phone.user_list.first().copied(),
        backup_state: RestoreReport::Nothing,
    }
}

fn settings_with(devices: Vec<DeviceSettings>) -> Settings {
    Settings::new(Config { general: general(), devices })
}

/// Settings of device "A" (platform 30), loaded, with the backups given.
fn loaded(backups: &[&str]) -> (Settings, Phone, Batch) {
    let mut settings = settings_with(Vec::new());
    let phone = phone("A", 30);
    let mut batch = Batch::new();
    settings.update(&phone, &mut batch, Message::LoadDeviceSettings);
    settings.update(
        &phone,
        &mut batch,
        Message::BackupsListed {
            device_id: "A".to_string(),
            backups: backups.iter().map(|name| name.to_string()).collect(),
        },
    );
    (settings, phone, batch)
}

#[test]
fn settings_start_from_the_store() {
    let settings = settings_with(vec![kept("A", true, false)]);
    assert_eq!(settings.general, general());
    assert_eq!(settings.device, DeviceSettings::default());
    assert_eq!(settings.stored, vec![kept("A", true, false)]);
    assert!(!settings.is_loading);
    assert_eq!(settings.modal, None);
}

#[test]
fn settings_without_a_store_are_empty() {
    let settings = Settings::default();
    assert_eq!(settings.general, GeneralSettings::default());
    assert_eq!(settings.general.theme, "");
    assert_eq!(settings.device.device_id, "");
    assert!(settings.stored.is_empty());
}

#[test]
fn unknown_device_gets_defaults_with_multi_user_by_platform() {
    let modern = phone("A", 21);
    let expected = DeviceSettings {
        device_id: "A".to_string(),
        disable_mode: false,
        multi_user_mode: true,
        backup: fresh_backup(&modern),
    };
    assert_eq!(load(&Vec::new(), &modern), expected);
    let old = phone("A", 20);
    assert!(!load(&Vec::new(), &old).multi_user_mode);
    assert!(!load(&vec![kept("B", true, true)], &old).multi_user_mode);
}

#[test]
fn known_device_gets_what_is_kept_for_it() {
    let stored = vec![kept("B", false, false), kept("A", true, false), kept("A", false, true)];
    let device = phone("A", 30);
    let expected = DeviceSettings {
        device_id: "A".to_string(),
        disable_mode: true,
        multi_user_mode: false,
        backup: fresh_backup(&device),
    };
    assert_eq!(load(&stored, &device), expected);
    assert_eq!(find_settings(&stored, &"A".to_string()), Some(1));
    assert_eq!(find_settings(&stored, &"C".to_string()), None);
}

#[test]
fn saving_replaces_or_appends() {
    let mut stored = vec![kept("A", false, false), kept("B", false, false)];
    save(&mut stored, &kept("B", true, true));
    assert_eq!(stored, vec![kept("A", false, false), kept("B", true, true)]);
    save(&mut stored, &kept("C", true, false));
    assert_eq!(
        stored,
        vec![kept("A", false, false), kept("B", true, true), kept("C", true, false)]
    );
    assert!(load(&stored, &phone("B", 1)).multi_user_mode);
    assert!(!load(&stored, &phone("A", 1)).disable_mode);
}

#[test]
fn loading_asks_for_the_backups_of_the_device() {
    let mut settings = settings_with(vec![kept("A", true, false)]);
    let device = phone("A", 30);
    let mut batch = Batch::new();
    let effects = settings.update(&device, &mut batch, Message::LoadDeviceSettings);
    assert_eq!(effects, vec![Effect::ListBackups { device_id: "A".to_string() }]);
    assert_eq!(settings.device.device_id, "A");
    assert!(settings.device.disable_mode);
    assert!(!settings.device.multi_user_mode);
    assert_eq!(settings.device.backup, fresh_backup(&device));
    assert_eq!(batch, Batch::new());
}

#[test]
fn loading_for_no_device_asks_for_nothing() {
    let mut settings = settings_with(vec![kept("A", true, false)]);
    let mut batch = Batch::new();
    let effects = settings.update(&Phone::default(), &mut batch, Message::LoadDeviceSettings);
    assert!(effects.is_empty());
    assert_eq!(settings.device, DeviceSettings::default());
}

#[test]
fn listed_backups_select_the_first() {
    let (settings, _, _) = loaded(&["monday", "tuesday"]);
    assert_eq!(settings.device.backup.backups, vec!["monday".to_string(), "tuesday".to_string()]);
    assert_eq!(settings.device.backup.selected, Some("monday".to_string()));
    let (settings, _, _) = loaded(&[]);
    assert_eq!(settings.device.backup.selected, None);
}

#[test]
fn backups_of_another_device_are_dropped() {
    let (mut settings, device, mut batch) = loaded(&["monday"]);
    let before = settings.device.clone();
    let effects = settings.update(
        &device,
        &mut batch,
        Message::BackupsListed { device_id: "B".to_string(), backups: vec!["other".to_string()] },
    );
    assert!(effects.is_empty());
    assert_eq!(settings.device, before);
}

#[test]
fn every_change_of_a_setting_is_kept_and_written() {
    let (mut settings, device, mut batch) = loaded(&[]);
    assert!(settings.stored.is_empty());

    let effects = settings.update(&device, &mut batch, Message::ExpertMode(true));
    assert_eq!(effects, vec![Effect::SaveConfig]);
    assert!(settings.general.expert_mode);
    assert_eq!(settings.stored, vec![settings.device.clone()]);

    let effects = settings.update(&device, &mut batch, Message::DisableMode(true));
    assert_eq!(effects, vec![Effect::SaveConfig]);
    assert!(settings.device.disable_mode);
    assert_eq!(settings.stored, vec![settings.device.clone()]);

    let effects = settings.update(&device, &mut batch, Message::MultiUserMode(false));
    assert_eq!(effects, vec![Effect::SaveConfig]);
    assert!(!settings.device.multi_user_mode);
    assert_eq!(settings.stored, vec![settings.device.clone()]);

    let effects = settings.update(&device, &mut batch, Message::ApplyTheme("Dark".to_string()));
    assert_eq!(effects, vec![Effect::SaveConfig]);
    assert_eq!(settings.general.theme, "Dark");

    let config = settings.config();
    assert_eq!(config.general, settings.general);
    assert_eq!(config.devices, settings.stored);
    assert!(config.devices[0].disable_mode);
}

#[test]
fn settings_of_no_device_are_not_kept() {
    let mut settings = settings_with(Vec::new());
    let mut batch = Batch::new();
    let effects = settings.update(&Phone::default(), &mut batch, Message::ExpertMode(true));
    assert_eq!(effects, vec![Effect::SaveConfig]);
    assert!(settings.general.expert_mode);
    assert!(settings.stored.is_empty());
}

#[test]
fn disable_mode_needs_the_platform_for_it() {
    let mut settings = settings_with(Vec::new());
    let old = phone("A", 22);
    let mut batch = Batch::new();
    settings.update(&old, &mut batch, Message::LoadDeviceSettings);
    let effects = settings.update(&old, &mut batch, Message::DisableMode(true));
    assert!(effects.is_empty());
    assert!(!settings.device.disable_mode);
    assert!(settings.stored.is_empty());

    let new = phone("A", 23);
    let effects = settings.update(&new, &mut batch, Message::DisableMode(true));
    assert_eq!(effects, vec![Effect::SaveConfig]);
    assert!(settings.device.disable_mode);
}

#[test]
fn pressed_url_is_opened() {
    let (mut settings, device, mut batch) = loaded(&[]);
    let effects = settings.update(
        &device,
        &mut batch,
        Message::UrlPressed("https://example.org".to_string()),
    );
    assert_eq!(effects, vec![Effect::OpenUrl("https://example.org".to_string())]);
}

#[test]
fn chosen_backup_brings_its_users() {
    let (mut settings, device, mut batch) = loaded(&["monday", "tuesday"]);
    let effects = settings.update(
        &device,
        &mut batch,
        Message::BackupSelected { backup: "tuesday".to_string(), users: vec![user(10, 1, true)] },
    );
    assert!(effects.is_empty());
    assert_eq!(settings.device.backup.selected, Some("tuesday".to_string()));
    assert_eq!(settings.device.backup.users, vec![user(10, 1, true)]);
    assert_eq!(settings.device.backup.backups.len(), 2);
    assert_eq!(settings.device.backup.selected_user, Some(user(0, 0, false)));
}

#[test]
fn backup_is_asked_for_and_listed_when_done() {
    let (mut settings, device, mut batch) = loaded(&[]);
    let effects = settings.update(&device, &mut batch, Message::BackupDevice);
    assert_eq!(effects, vec![Effect::BackupDevice { device_id: "A".to_string() }]);
    let effects = settings.update(&device, &mut batch, Message::DeviceBackedUp(Ok(true)));
    assert_eq!(effects, vec![Effect::ListBackups { device_id: "A".to_string() }]);
    let effects =
        settings.update(&device, &mut batch, Message::DeviceBackedUp(Err("disk full".to_string())));
    assert!(effects.is_empty());
}

#[test]
fn restore_without_a_device_reports_its_absence() {
    let mut settings = settings_with(Vec::new());
    let mut batch = Batch::new();
    let effects = settings.update(&Phone::default(), &mut batch, Message::RestoreDevice);
    assert!(effects.is_empty());
    assert_eq!(settings.device.backup.backup_state, RestoreReport::DeviceAbsent);
    assert_eq!(settings.device.backup.backup_state.text(), "Device is not connected");
}

#[test]
fn restore_without_a_backup_reports_that_none_is_selected() {
    let (mut settings, device, mut batch) = loaded(&[]);
    let effects = settings.update(&device, &mut batch, Message::RestoreDevice);
    assert!(effects.is_empty());
    assert_eq!(settings.device.backup.backup_state, RestoreReport::NoBackupSelected);
    assert_eq!(settings.device.backup.backup_state.text(), "No backup selected");
    assert_eq!(batch, Batch::new());
}

#[test]
fn restore_with_a_backup_asks_for_its_commands() {
    let (mut settings, device, mut batch) = loaded(&["monday", "tuesday"]);
    let effects = settings.update(&device, &mut batch, Message::RestoreDevice);
    assert_eq!(
        effects,
        vec![Effect::PlanRestore { device_id: "A".to_string(), backup: "monday".to_string() }]
    );
    assert_eq!(settings.device.backup.backup_state, RestoreReport::Nothing);
    assert_eq!(settings.device.backup.backup_state.text(), "");
}

#[test]
fn restore_without_commands_reports_that_the_device_is_restored() {
    let (mut settings, device, mut batch) = loaded(&["monday"]);
    batch.outstanding = 2;
    let plan = vec![PackageRestore { index: 4, commands: Vec::new() }];
    let effects = settings.update(
        &device,
        &mut batch,
        Message::RestorePlanned { device_id: "A".to_string(), plan: Ok(plan) },
    );
    assert!(effects.is_empty());
    assert_eq!(batch, Batch::new());
    assert_eq!(settings.device.backup.backup_state, RestoreReport::AlreadyRestored);
    assert_eq!(settings.device.backup.backup_state.text(), "Device state is already restored");
}

#[test]
fn restore_with_commands_starts_a_batch() {
    let (mut settings, device, mut batch) = loaded(&["monday"]);
    let plan = vec![
        PackageRestore {
            index: 4,
            commands: vec!["install a".to_string(), "enable a".to_string()],
        },
        PackageRestore { index: 9, commands: vec!["install b".to_string()] },
    ];
    let effects = settings.update(
        &device,
        &mut batch,
        Message::RestorePlanned { device_id: "A".to_string(), plan: Ok(plan) },
    );
    let submit = |index: usize, instruction: &str| {
        Effect::SubmitCommand(Command {
            device_id: "A".to_string(),
            package: PackageInfo { i_user: 0, index },
            instruction: instruction.to_string(),
        })
    };
    assert_eq!(
        effects,
        vec![submit(4, "install a"), submit(4, "enable a"), submit(9, "install b")]
    );
    assert_eq!(batch.outstanding, 3);
    assert_eq!(settings.device.backup.backup_state, RestoreReport::Nothing);
}

#[test]
fn restore_that_cannot_be_planned_reports_why() {
    let (mut settings, device, mut batch) = loaded(&["monday"]);
    batch.outstanding = 2;
    let effects = settings.update(
        &device,
        &mut batch,
        Message::RestorePlanned { device_id: "A".to_string(), plan: Err("unreadable".to_string()) },
    );
    assert!(effects.is_empty());
    assert_eq!(batch.outstanding, 2);
    assert_eq!(
        settings.device.backup.backup_state,
        RestoreReport::Failed("unreadable".to_string())
    );
    assert_eq!(settings.device.backup.backup_state.text(), "unreadable");
}

#[test]
fn restore_planned_for_another_device_is_dropped() {
    let (mut settings, device, mut batch) = loaded(&["monday"]);
    let before = settings.device.clone();
    let plan = vec![PackageRestore { index: 4, commands: vec!["install a".to_string()] }];
    let effects = settings.update(
        &device,
        &mut batch,
        Message::RestorePlanned { device_id: "B".to_string(), plan: Ok(plan) },
    );
    assert!(effects.is_empty());
    assert_eq!(batch, Batch::new());
    assert_eq!(settings.device, before);
}

#[test]
fn completion_of_a_command_leaves_the_settings_alone() {
    let (mut settings, device, mut batch) = loaded(&["monday"]);
    batch.outstanding = 2;
    let before = settings.device.clone();
    let outcome = CommandOutcome {
        device_id: "A".to_string(),
        package: PackageInfo { i_user: 0, index: 1 },
        error: Some("denied".to_string()),
    };
    let effects = settings.update(&device, &mut batch, Message::RestoringDevice(outcome));
    assert!(effects.is_empty());
    assert_eq!(batch.outstanding, 2);
    assert_eq!(settings.device, before);
}

#[test]
fn folder_is_picked_once_at_a_time() {
    let (mut settings, device, mut batch) = loaded(&[]);
    let effects = settings.update(&device, &mut batch, Message::ChooseBackUpFolder);
    assert_eq!(effects, vec![Effect::ChooseFolder]);
    assert!(settings.is_loading);
    let effects = settings.update(&device, &mut batch, Message::ChooseBackUpFolder);
    assert!(effects.is_empty());
    assert!(settings.is_loading);
}

#[test]
fn chosen_folder_is_kept_and_the_device_loaded_anew() {
    let (mut settings, device, mut batch) = loaded(&["monday"]);
    settings.update(&device, &mut batch, Message::ChooseBackUpFolder);
    let effects =
        settings.update(&device, &mut batch, Message::FolderChosen(Ok("/elsewhere".to_string())));
    assert_eq!(
        effects,
        vec![Effect::SaveConfig, Effect::ListBackups { device_id: "A".to_string() }]
    );
    assert!(!settings.is_loading);
    assert_eq!(settings.general.backup_folder, "/elsewhere");
    assert_eq!(settings.device.backup, fresh_backup(&device));
    assert_eq!(settings.stored.len(), 1);
    assert_eq!(settings.stored[0].device_id, "A");
}

#[test]
fn folder_that_was_not_chosen_changes_nothing_else() {
    let (mut settings, device, mut batch) = loaded(&["monday"]);
    settings.update(&device, &mut batch, Message::ChooseBackUpFolder);
    let before = settings.device.clone();
    let effects =
        settings.update(&device, &mut batch, Message::FolderChosen(Err("closed".to_string())));
    assert!(effects.is_empty());
    assert!(!settings.is_loading);
    assert_eq!(settings.general.backup_folder, "/backups");
    assert_eq!(settings.device, before);
}

#[test]
fn export_shows_a_dialog_when_done() {
    let (mut settings, device, mut batch) = loaded(&[]);
    let effects = settings.update(&device, &mut batch, Message::ExportPackages);
    assert_eq!(effects, vec![Effect::ExportPackages]);
    let effects =
        settings.update(&device, &mut batch, Message::PackagesExported(Err("denied".to_string())));
    assert!(effects.is_empty());
    assert_eq!(settings.modal, None);
    settings.update(&device, &mut batch, Message::PackagesExported(Ok(true)));
    assert_eq!(settings.modal, Some(PopUpModal::ExportUninstalled));
    settings.update(&device, &mut batch, Message::ModalHide);
    assert_eq!(settings.modal, None);
}
