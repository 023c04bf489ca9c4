//! The settings view: the settings of the application and of the selected
//! device, and what each of its events does to them.

use crate::batch::{
    batch_commands, copy_plan, flatten, opened, submit_requests, Batch, BatchView, CommandOutcome,
    PackageRestore,
};
use crate::config::{
    copy_names, first_name, first_of, load, loaded, no_settings, save, saved, Config, ConfigView,
    DeviceSettings, DeviceSettingsView, GeneralSettings, GeneralSettingsView, RestoreReport,
    RestoreReportView,
};
use crate::device::{copy_users, disable_capable, Phone, PhoneView, User};
use crate::effect::{emit, Effect, EffectView};
use vstd::prelude::*;

verus! {

/// A dialog that the settings view shows on top of itself.
#[derive(Debug, Clone, Copy, PartialEq, Eq, Structural)]
pub enum PopUpModal {
    ExportUninstalled,
}

/// State of the settings view.
#[derive(Debug, PartialEq, Eq)]
pub struct Settings {
    pub general: GeneralSettings,
    pub device: DeviceSettings,
    /// The settings kept for the devices that were seen, as the settings
    /// store has them.
    pub stored: Vec<DeviceSettings>,
    /// Whether the user is picking a folder.
    pub is_loading: bool,
    /// The dialog that is shown, if any.
    pub modal: Option<PopUpModal>,
}

/// What a [`Settings`] holds.
pub struct SettingsView {
    pub general: GeneralSettingsView,
    pub device: DeviceSettingsView,
    pub stored: Seq<DeviceSettingsView>,
    pub is_loading: bool,
    pub modal: Option<PopUpModal>,
}

impl DeepView for Settings {
    type V = SettingsView;

    open spec fn deep_view(&self) -> SettingsView {
        SettingsView {
            general: self.general@,
            device: self.device@,
            stored: self.stored.deep_view(),
            is_loading: self.is_loading,
            modal: self.modal,
        }
    }
}

impl View for Settings {
    type V = SettingsView;

    open spec fn view(&self) -> SettingsView {
        self.deep_view()
    }
}

/// An event of the settings view.
#[derive(Debug, PartialEq, Eq)]
pub enum Message {
    /// Give the selected device its settings.
    LoadDeviceSettings,
    /// The backups of a device have been listed.
    BackupsListed { device_id: String, backups: Vec<String> },
    ExpertMode(bool),
    DisableMode(bool),
    MultiUserMode(bool),
    /// The user chose the theme of this name.
    ApplyTheme(String),
    UrlPressed(String),
    /// The user chose a backup; `users` are the users that it covers.
    BackupSelected { backup: String, users: Vec<User> },
    BackupDevice,
    /// The user asked for the selected device to be restored.
    RestoreDevice,
    /// The commands that restore a device have been worked out, or could
    /// not be.
    RestorePlanned { device_id: String, plan: Result<Vec<PackageRestore>, String> },
    /// One command of a restore has completed.
    RestoringDevice(CommandOutcome),
    DeviceBackedUp(Result<bool, String>),
    ChooseBackUpFolder,
    FolderChosen(Result<String, String>),
    ExportPackages,
    PackagesExported(Result<bool, String>),
    ModalHide,
}

/// Two outcomes of something that may fail, with a reason, say the same.
pub open spec fn alike_done<T>(a: Result<T, String>, b: Result<T, String>) -> bool {
    match (a, b) {
        (Ok(x), Ok(y)) => x == y,
        (Err(x), Err(y)) => x@ == y@,
        _ => false,
    }
}

/// Two events of the settings view say the same.
pub open spec fn alike(a: Message, b: Message) -> bool {
    match (a, b) {
        (Message::LoadDeviceSettings, Message::LoadDeviceSettings) => true,
        (
            Message::BackupsListed { device_id: d, backups: x },
            Message::BackupsListed { device_id: e, backups: y },
        ) => d@ == e@ && x.deep_view() == y.deep_view(),
        (Message::ExpertMode(x), Message::ExpertMode(y)) => x == y,
        (Message::DisableMode(x), Message::DisableMode(y)) => x == y,
        (Message::MultiUserMode(x), Message::MultiUserMode(y)) => x == y,
        (Message::ApplyTheme(x), Message::ApplyTheme(y)) => x@ == y@,
        (Message::UrlPressed(x), Message::UrlPressed(y)) => x@ == y@,
        (
            Message::BackupSelected { backup: x, users: u },
            Message::BackupSelected { backup: y, users: v },
        ) => x@ == y@ && u@ == v@,
        (Message::BackupDevice, Message::BackupDevice) => true,
        (Message::RestoreDevice, Message::RestoreDevice) => true,
        (
            Message::RestorePlanned { device_id: d, plan: x },
            Message::RestorePlanned { device_id: e, plan: y },
        ) => d@ == e@ && match (x, y) {
            (Ok(p), Ok(q)) => p.deep_view() == q.deep_view(),
            (Err(p), Err(q)) => p@ == q@,
            _ => false,
        },
        (Message::RestoringDevice(x), Message::RestoringDevice(y)) => x@ == y@,
        (Message::DeviceBackedUp(x), Message::DeviceBackedUp(y)) => alike_done(x, y),
        (Message::ChooseBackUpFolder, Message::ChooseBackUpFolder) => true,
        (Message::FolderChosen(x), Message::FolderChosen(y)) => match (x, y) {
            (Ok(p), Ok(q)) => p@ == q@,
            (Err(p), Err(q)) => p@ == q@,
            _ => false,
        },
        (Message::ExportPackages, Message::ExportPackages) => true,
        (Message::PackagesExported(x), Message::PackagesExported(y)) => alike_done(x, y),
        (Message::ModalHide, Message::ModalHide) => true,
        _ => false,
    }
}

/// A copy of the outcome of something that may fail, with a reason.
fn copy_done(done: &Result<bool, String>) -> (copy: Result<bool, String>)
    ensures
        alike_done(*done, copy),
{
    match done {
        Ok(value) => Ok(*value),
        Err(reason) => Err(reason.clone()),
    }
}

impl Clone for Message {
    fn clone(&self) -> (copy: Message)
        ensures
            alike(*self, copy),
    {
        match self {
            Message::LoadDeviceSettings => Message::LoadDeviceSettings,
            Message::BackupsListed { device_id, backups } => Message::BackupsListed {
                device_id: device_id.clone(),
                backups: copy_names(backups),
            },
            Message::ExpertMode(toggled) => Message::ExpertMode(*toggled),
            Message::DisableMode(toggled) => Message::DisableMode(*toggled),
            Message::MultiUserMode(toggled) => Message::MultiUserMode(*toggled),
            Message::ApplyTheme(theme) => Message::ApplyTheme(theme.clone()),
            Message::UrlPressed(url) => Message::UrlPressed(url.clone()),
            Message::BackupSelected { backup, users } => Message::BackupSelected {
                backup: backup.clone(),
                users: copy_users(users),
            },
            Message::BackupDevice => Message::BackupDevice,
            Message::RestoreDevice => Message::RestoreDevice,
            Message::RestorePlanned { device_id, plan } => Message::RestorePlanned {
                device_id: device_id.clone(),
                plan: match plan {
                    Ok(packages) => Ok(copy_plan(packages)),
                    Err(reason) => Err(reason.clone()),
                },
            },
            Message::RestoringDevice(outcome) => Message::RestoringDevice(outcome.clone()),
            Message::DeviceBackedUp(done) => Message::DeviceBackedUp(copy_done(done)),
            Message::ChooseBackUpFolder => Message::ChooseBackUpFolder,
            Message::FolderChosen(chosen) => Message::FolderChosen(
                match chosen {
                    Ok(folder) => Ok(folder.clone()),
                    Err(reason) => Err(reason.clone()),
                },
            ),
            Message::ExportPackages => Message::ExportPackages,
            Message::PackagesExported(exported) => Message::PackagesExported(copy_done(exported)),
            Message::ModalHide => Message::ModalHide,
        }
    }
}

/// Events that say the same lead to the same.
pub proof fn lemma_alike_events_step_alike(
    s: SettingsView,
    phone: PhoneView,
    batch: BatchView,
    a: Message,
    b: Message,
)
    requires
        alike(a, b),
    ensures
        settings_step(s, phone, batch, a) == settings_step(s, phone, batch, b),
{
}

/// What an event of the settings view leads to.
pub struct SettingsStep {
    pub settings: SettingsView,
    pub batch: BatchView,
    pub effects: Seq<EffectView>,
}

/// The state at the start: the general settings of the store, no device.
pub open spec fn initial_settings(config: ConfigView) -> SettingsView {
    SettingsView {
        general: config.general,
        device: no_settings(),
        stored: config.devices,
        is_loading: false,
        modal: None,
    }
}

/// The settings with those of the device kept under its identity. Where
/// no device is selected there is no identity to keep anything under.
pub open spec fn persisted(s: SettingsView) -> SettingsView {
    if s.device.device_id.len() > 0 {
        SettingsView { stored: saved(s.stored, s.device), ..s }
    } else {
        s
    }
}

/// The settings with the device settings that `phone` gets.
pub open spec fn reloaded(s: SettingsView, phone: PhoneView) -> SettingsView {
    SettingsView { device: loaded(s.stored, phone), ..s }
}

/// The request to list the backups of `phone`; none for no device.
pub open spec fn listing_request(phone: PhoneView) -> Seq<EffectView> {
    if phone.adb_id.len() > 0 {
        seq![EffectView::ListBackups { device_id: phone.adb_id }]
    } else {
        Seq::empty()
    }
}

/// The settings with `report` as what the last restore came to.
pub open spec fn reporting(s: SettingsView, report: RestoreReportView) -> SettingsView {
    SettingsView {
        device: DeviceSettingsView {
            backup: crate::config::BackupSettingsView { backup_state: report, ..s.device.backup },
            ..s.device
        },
        ..s
    }
}

/// The settings with `backups` as the backups of the device, the first of
/// them chosen.
pub open spec fn with_backups(s: SettingsView, backups: Seq<Seq<char>>) -> SettingsView {
    SettingsView {
        device: DeviceSettingsView {
            backup: crate::config::BackupSettingsView {
                backups,
                selected: first_of(backups),
                ..s.device.backup
            },
            ..s.device
        },
        ..s
    }
}

/// The settings with `backup` chosen, which covers `users`.
pub open spec fn with_selected_backup(
    s: SettingsView,
    backup: Seq<char>,
    users: Seq<User>,
) -> SettingsView {
    SettingsView {
        device: DeviceSettingsView {
            backup: crate::config::BackupSettingsView {
                selected: Some(backup),
                users,
                ..s.device.backup
            },
            ..s.device
        },
        ..s
    }
}

/// A step that asks nothing of the outside.
pub open spec fn quiet(settings: SettingsView, batch: BatchView) -> SettingsStep {
    SettingsStep { settings, batch, effects: Seq::empty() }
}

/// A step that changed a setting: the change is kept and written out.
pub open spec fn saving(settings: SettingsView, batch: BatchView) -> SettingsStep {
    SettingsStep { settings: persisted(settings), batch, effects: seq![EffectView::SaveConfig] }
}

/// What a request to restore the device leads to: a report where there is
/// no device or no backup to restore from, else the request to work out
/// the commands.
pub open spec fn restore_requested(
    s: SettingsView,
    phone: PhoneView,
    batch: BatchView,
) -> SettingsStep {
    if phone.adb_id.len() == 0 {
        quiet(reporting(s, RestoreReportView::DeviceAbsent), batch)
    } else {
        match s.device.backup.selected {
            None => quiet(reporting(s, RestoreReportView::NoBackupSelected), batch),
            Some(backup) => SettingsStep {
                settings: reporting(s, RestoreReportView::Nothing),
                batch,
                effects: seq![EffectView::PlanRestore { device_id: phone.adb_id, backup }],
            },
        }
    }
}

/// What the commands of a restore lead to: a new batch, with the counter
/// at their number and one request for each; with no command at all, the
/// report that the device is restored already.
pub open spec fn restore_started(
    s: SettingsView,
    device_id: Seq<char>,
    plan: Seq<crate::batch::PackageRestoreView>,
) -> SettingsStep {
    let commands = batch_commands(device_id, plan);
    SettingsStep {
        settings: reporting(
            s,
            if commands.len() == 0 {
                RestoreReportView::AlreadyRestored
            } else {
                RestoreReportView::Nothing
            },
        ),
        batch: opened(commands.len()),
        effects: submit_requests(commands),
    }
}

/// What an event does to the settings view, given the selected device (or
/// the device that stands for none) and the running batch.
pub open spec fn settings_step(
    s: SettingsView,
    phone: PhoneView,
    batch: BatchView,
    msg: Message,
) -> SettingsStep {
    match msg {
        Message::ModalHide => quiet(SettingsView { modal: None, ..s }, batch),
        Message::ExpertMode(toggled) => saving(
            SettingsView {
                general: GeneralSettingsView { expert_mode: toggled, ..s.general },
                ..s
            },
            batch,
        ),
        Message::DisableMode(toggled) => if disable_capable(phone) {
            saving(
                SettingsView {
                    device: DeviceSettingsView { disable_mode: toggled, ..s.device },
                    ..s
                },
                batch,
            )
        } else {
            quiet(s, batch)
        },
        Message::MultiUserMode(toggled) => saving(
            SettingsView {
                device: DeviceSettingsView { multi_user_mode: toggled, ..s.device },
                ..s
            },
            batch,
        ),
        Message::ApplyTheme(theme) => saving(
            SettingsView { general: GeneralSettingsView { theme: theme@, ..s.general }, ..s },
            batch,
        ),
        Message::UrlPressed(url) => SettingsStep {
            settings: s,
            batch,
            effects: seq![EffectView::OpenUrl(url@)],
        },
        Message::LoadDeviceSettings => SettingsStep {
            settings: reloaded(s, phone),
            batch,
            effects: listing_request(phone),
        },
        Message::BackupsListed { device_id, backups } => if device_id@ == s.device.device_id {
            quiet(with_backups(s, backups.deep_view()), batch)
        } else {
            quiet(s, batch)
        },
        Message::BackupSelected { backup, users } => quiet(
            with_selected_backup(s, backup@, users@),
            batch,
        ),
        Message::BackupDevice => SettingsStep {
            settings: s,
            batch,
            effects: seq![EffectView::BackupDevice { device_id: s.device.device_id }],
        },
        Message::DeviceBackedUp(done) => SettingsStep {
            settings: s,
            batch,
            effects: if done is Ok {
                listing_request(phone)
            } else {
                Seq::empty()
            },
        },
        Message::RestoreDevice => restore_requested(s, phone, batch),
        Message::RestorePlanned { device_id, plan } => if device_id@ != phone.adb_id {
            quiet(s, batch)
        } else {
            match plan {
                Ok(packages) => restore_started(s, device_id@, packages.deep_view()),
                Err(reason) => quiet(reporting(s, RestoreReportView::Failed(reason@)), batch),
            }
        },
        Message::RestoringDevice(_) => quiet(s, batch),
        Message::ChooseBackUpFolder => if s.is_loading {
            quiet(s, batch)
        } else {
            SettingsStep {
                settings: SettingsView { is_loading: true, ..s },
                batch,
                effects: seq![EffectView::ChooseFolder],
            }
        },
        Message::FolderChosen(chosen) => match chosen {
            Ok(folder) => {
                let kept = persisted(
                    SettingsView {
                        general: GeneralSettingsView { backup_folder: folder@, ..s.general },
                        is_loading: false,
                        ..s
                    },
                );
                SettingsStep {
                    settings: reloaded(kept, phone),
                    batch,
                    effects: seq![EffectView::SaveConfig] + listing_request(phone),
                }
            },
            Err(_) => quiet(SettingsView { is_loading: false, ..s }, batch),
        },
        Message::ExportPackages => SettingsStep {
            settings: s,
            batch,
            effects: seq![EffectView::ExportPackages],
        },
        Message::PackagesExported(exported) => if exported is Ok {
            quiet(SettingsView { modal: Some(PopUpModal::ExportUninstalled), ..s }, batch)
        } else {
            quiet(s, batch)
        },
    }
}

impl Settings {
    /// The settings view at the start, from what the settings store holds.
    pub fn new(config: Config) -> (settings: Settings)
        ensures
            settings@ == initial_settings(config@),
    {
        Settings {
            general: config.general,
            device: DeviceSettings::default(),
            stored: config.devices,
            is_loading: false,
            modal: None,
        }
    }

    /// What the settings store has to hold: the general settings, and the
    /// settings kept for each device.
    pub fn config(&self) -> (config: Config)
        ensures
            config@ == (ConfigView { general: self@.general, devices: self@.stored }),
    {
        let mut devices: Vec<DeviceSettings> = Vec::new();
        let mut i: usize = 0;
        while i < self.stored.len()
            invariant
                i <= self.stored.len(),
                devices@.len() == i,
                forall|j: int| 0 <= j < i ==> (#[trigger] devices@[j])@ == self.stored@[j]@,
            decreases self.stored.len() - i,
        {
            devices.push(self.stored[i].clone());
            i += 1;
        }
        assert(devices.deep_view() =~= self.stored.deep_view());
        Config { general: self.general.clone(), devices }
    }

    /// Keeps the settings of the device under its identity and asks for the
    /// configuration to be written.
    fn persist(&mut self, effects: &mut Vec<Effect>)
        ensures
            final(self)@ == persisted(old(self)@),
            final(effects).deep_view() == old(effects).deep_view().push(EffectView::SaveConfig),
    {
        if !self.device.device_id.as_str().is_empty() {
            save(&mut self.stored, &self.device);
        }
        emit(effects, Effect::SaveConfig);
    }

    /// Gives the device its settings and asks for its backups.
    fn load_device_settings(&mut self, phone: &Phone, effects: &mut Vec<Effect>)
        ensures
            final(self)@ == reloaded(old(self)@, phone@),
            final(effects).deep_view() == old(effects).deep_view() + listing_request(phone@),
    {
        self.device = load(&self.stored, phone);
        request_listing(phone, effects);
    }

    /// Handles a request to restore the device.
    fn request_restore(&mut self, phone: &Phone, batch: &Batch, effects: &mut Vec<Effect>)
        requires
            old(effects)@.len() == 0,
        ensures
            restore_requested(old(self)@, phone@, batch@) == (SettingsStep {
                settings: final(self)@,
                batch: batch@,
                effects: final(effects).deep_view(),
            }),
    {
        if phone.adb_id.as_str().is_empty() {
            self.device.backup.backup_state = RestoreReport::DeviceAbsent;
            assert(effects.deep_view() =~= Seq::empty());
            return ;
        }
        match &self.device.backup.selected {
            None => {
                self.device.backup.backup_state = RestoreReport::NoBackupSelected;
                assert(effects.deep_view() =~= Seq::empty());
            },
            Some(backup) => {
                let request = Effect::PlanRestore {
                    device_id: phone.adb_id.clone(),
                    backup: backup.clone(),
                };
                self.device.backup.backup_state = RestoreReport::Nothing;
                emit(effects, request);
                assert(effects.deep_view() =~= seq![request@]);
            },
        }
    }

    /// Starts the batch of a restore.
    fn start_restore(
        &mut self,
        device_id: &String,
        plan: &Vec<PackageRestore>,
        batch: &mut Batch,
        effects: &mut Vec<Effect>,
    )
        requires
            old(effects)@.len() == 0,
        ensures
            restore_started(old(self)@, device_id@, plan.deep_view()) == (SettingsStep {
                settings: final(self)@,
                batch: final(batch)@,
                effects: final(effects).deep_view(),
            }),
    {
        let commands = flatten(device_id, plan);
        assert(effects.deep_view() =~= Seq::empty());
        let count = batch.submit_batch(commands, effects);
        if count == 0 {
            self.device.backup.backup_state = RestoreReport::AlreadyRestored;
        } else {
            self.device.backup.backup_state = RestoreReport::Nothing;
        }
        assert(effects.deep_view() =~= submit_requests(
            batch_commands(device_id@, plan.deep_view()),
        ));
    }

    /// Takes one event of the settings view. `phone` is the selected
    /// device, or the device that stands for none; `batch` counts the
    /// commands of the running batch. Returns the requests to carry out.
    pub fn update(&mut self, phone: &Phone, batch: &mut Batch, msg: Message) -> (effects: Vec<
        Effect,
    >)
        ensures
            settings_step(old(self)@, phone@, old(batch)@, msg) == (SettingsStep {
                settings: final(self)@,
                batch: final(batch)@,
                effects: effects.deep_view(),
            }),
    {
        let mut effects: Vec<Effect> = Vec::new();
        assert(effects.deep_view() =~= Seq::empty());
        match msg {
            Message::ModalHide => {
                self.modal = None;
            },
            Message::ExpertMode(toggled) => {
                self.general.expert_mode = toggled;
                self.persist(&mut effects);
                assert(effects.deep_view() =~= seq![EffectView::SaveConfig]);
            },
            Message::DisableMode(toggled) => {
                if phone.supports_disable_mode() {
                    self.device.disable_mode = toggled;
                    self.persist(&mut effects);
                    assert(effects.deep_view() =~= seq![EffectView::SaveConfig]);
                }
            },
            Message::MultiUserMode(toggled) => {
                self.device.multi_user_mode = toggled;
                self.persist(&mut effects);
                assert(effects.deep_view() =~= seq![EffectView::SaveConfig]);
            },
            Message::ApplyTheme(theme) => {
                self.general.theme = theme;
                self.persist(&mut effects);
                assert(effects.deep_view() =~= seq![EffectView::SaveConfig]);
            },
            Message::UrlPressed(url) => {
                let request = Effect::OpenUrl(url);
                emit(&mut effects, request);
                assert(effects.deep_view() =~= seq![request@]);
            },
            Message::LoadDeviceSettings => {
                self.load_device_settings(phone, &mut effects);
                assert(effects.deep_view() =~= listing_request(phone@));
            },
            Message::BackupsListed { device_id, backups } => {
                if device_id == self.device.device_id {
                    self.device.backup.selected = first_name(&backups);
                    self.device.backup.backups = backups;
                }
            },
            Message::BackupSelected { backup, users } => {
                self.device.backup.selected = Some(backup);
                self.device.backup.users = users;
            },
            Message::BackupDevice => {
                let request = Effect::BackupDevice { device_id: self.device.device_id.clone() };
                emit(&mut effects, request);
                assert(effects.deep_view() =~= seq![request@]);
            },
            Message::DeviceBackedUp(done) => {
                if done.is_ok() {
                    request_listing(phone, &mut effects);
                    assert(effects.deep_view() =~= listing_request(phone@));
                }
            },
            Message::RestoreDevice => {
                self.request_restore(phone, batch, &mut effects);
            },
            Message::RestorePlanned { device_id, plan } => {
                if device_id == phone.adb_id {
                    match plan {
                        Ok(packages) => {
                            self.start_restore(&device_id, &packages, batch, &mut effects);
                        },
                        Err(reason) => {
                            self.device.backup.backup_state = RestoreReport::Failed(reason);
                        },
                    }
                }
            },
            Message::RestoringDevice(_) => {},
            Message::ChooseBackUpFolder => {
                if !self.is_loading {
                    self.is_loading = true;
                    emit(&mut effects, Effect::ChooseFolder);
                    assert(effects.deep_view() =~= seq![EffectView::ChooseFolder]);
                }
            },
            Message::FolderChosen(chosen) => {
                self.is_loading = false;
                match chosen {
                    Ok(folder) => {
                        self.general.backup_folder = folder;
                        self.persist(&mut effects);
                        self.load_device_settings(phone, &mut effects);
                        assert(effects.deep_view() =~= seq![EffectView::SaveConfig]
                            + listing_request(phone@));
                    },
                    Err(_) => {},
                }
            },
            Message::ExportPackages => {
                emit(&mut effects, Effect::ExportPackages);
                assert(effects.deep_view() =~= seq![EffectView::ExportPackages]);
            },
            Message::PackagesExported(exported) => {
                if exported.is_ok() {
                    self.modal = Some(PopUpModal::ExportUninstalled);
                }
            },
        }
        effects
    }
}

impl Default for Settings {
    fn default() -> (settings: Settings)
        ensures
            settings@ == initial_settings(
                ConfigView {
                    general: GeneralSettingsView {
                        theme: Seq::empty(),
                        expert_mode: false,
                        backup_folder: Seq::empty(),
                    },
                    devices: Seq::empty(),
                },
            ),
    {
        let config = Config { general: GeneralSettings::default(), devices: Vec::new() };
        assert(config@.devices =~= Seq::empty());
        Settings::new(config)
    }
}

/// Asks for the backups of `phone` to be listed, unless it stands for no
/// device.
fn request_listing(phone: &Phone, effects: &mut Vec<Effect>)
    ensures
        final(effects).deep_view() == old(effects).deep_view() + listing_request(phone@),
{
    if !phone.adb_id.as_str().is_empty() {
        let request = Effect::ListBackups { device_id: phone.adb_id.clone() };
        emit(effects, request);
        assert(effects.deep_view() =~= old(effects).deep_view() + seq![request@]);
    } else {
        assert(effects.deep_view() =~= old(effects).deep_view() + Seq::<EffectView>::empty());
    }
}

} // verus!
