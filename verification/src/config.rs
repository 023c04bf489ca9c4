//! Settings: those of the application, those kept for each device, and the
//! rule that gives a device its settings.

use crate::device::{copy_users, multi_user_capable, Phone, PhoneView, User};
use vstd::prelude::*;

verus! {

/// Settings that hold for every device.
#[derive(Debug, PartialEq, Eq)]
pub struct GeneralSettings {
    pub theme: String,
    pub expert_mode: bool,
    pub backup_folder: String,
}

/// What a [`GeneralSettings`] holds.
pub struct GeneralSettingsView {
    pub theme: Seq<char>,
    pub expert_mode: bool,
    pub backup_folder: Seq<char>,
}

impl DeepView for GeneralSettings {
    type V = GeneralSettingsView;

    open spec fn deep_view(&self) -> GeneralSettingsView {
        GeneralSettingsView {
            theme: self.theme@,
            expert_mode: self.expert_mode,
            backup_folder: self.backup_folder@,
        }
    }
}

impl View for GeneralSettings {
    type V = GeneralSettingsView;

    open spec fn view(&self) -> GeneralSettingsView {
        self.deep_view()
    }
}

impl Clone for GeneralSettings {
    fn clone(&self) -> (copy: GeneralSettings)
        ensures
            copy@ == self@,
    {
        GeneralSettings {
            theme: self.theme.clone(),
            expert_mode: self.expert_mode,
            backup_folder: self.backup_folder.clone(),
        }
    }
}

impl Default for GeneralSettings {
    fn default() -> (general: GeneralSettings)
        ensures
            general@ == (GeneralSettingsView {
                theme: Seq::empty(),
                expert_mode: false,
                backup_folder: Seq::empty(),
            }),
    {
        GeneralSettings { theme: String::new(), expert_mode: false, backup_folder: String::new() }
    }
}

/// What the last request to restore a device came to.
#[derive(Debug, PartialEq, Eq)]
pub enum RestoreReport {
    /// Nothing to report.
    Nothing,
    /// No device is selected.
    DeviceAbsent,
    /// No backup is selected.
    NoBackupSelected,
    /// The device is in the state of the backup already.
    AlreadyRestored,
    /// The backup could not be turned into commands.
    Failed(String),
}

/// What a [`RestoreReport`] holds.
pub enum RestoreReportView {
    Nothing,
    DeviceAbsent,
    NoBackupSelected,
    AlreadyRestored,
    Failed(Seq<char>),
}

impl DeepView for RestoreReport {
    type V = RestoreReportView;

    open spec fn deep_view(&self) -> RestoreReportView {
        match self {
            RestoreReport::Nothing => RestoreReportView::Nothing,
            RestoreReport::DeviceAbsent => RestoreReportView::DeviceAbsent,
            RestoreReport::NoBackupSelected => RestoreReportView::NoBackupSelected,
            RestoreReport::AlreadyRestored => RestoreReportView::AlreadyRestored,
            RestoreReport::Failed(reason) => RestoreReportView::Failed(reason@),
        }
    }
}

impl View for RestoreReport {
    type V = RestoreReportView;

    open spec fn view(&self) -> RestoreReportView {
        self.deep_view()
    }
}

/// The line that the user reads for a report.
pub open spec fn report_text(report: RestoreReportView) -> Seq<char> {
    match report {
        RestoreReportView::Nothing => Seq::empty(),
        RestoreReportView::DeviceAbsent => "Device is not connected"@,
        RestoreReportView::NoBackupSelected => "No backup selected"@,
        RestoreReportView::AlreadyRestored => "Device state is already restored"@,
        RestoreReportView::Failed(reason) => reason,
    }
}

impl Clone for RestoreReport {
    fn clone(&self) -> (copy: RestoreReport)
        ensures
            copy@ == self@,
    {
        match self {
            RestoreReport::Nothing => RestoreReport::Nothing,
            RestoreReport::DeviceAbsent => RestoreReport::DeviceAbsent,
            RestoreReport::NoBackupSelected => RestoreReport::NoBackupSelected,
            RestoreReport::AlreadyRestored => RestoreReport::AlreadyRestored,
            RestoreReport::Failed(reason) => RestoreReport::Failed(reason.clone()),
        }
    }
}

impl RestoreReport {
    /// The line that the user reads for this report.
    pub fn text(&self) -> (line: String)
        ensures
            line@ == report_text(self@),
    {
        match self {
            RestoreReport::Nothing => String::new(),
            RestoreReport::DeviceAbsent => "Device is not connected".to_string(),
            RestoreReport::NoBackupSelected => "No backup selected".to_string(),
            RestoreReport::AlreadyRestored => "Device state is already restored".to_string(),
            RestoreReport::Failed(reason) => reason.clone(),
        }
    }
}

/// The backups of the selected device and what is chosen among them.
#[derive(Debug, PartialEq, Eq)]
pub struct BackupSettings {
    pub backups: Vec<String>,
    pub selected: Option<String>,
    pub users: Vec<User>,
    pub selected_user: Option<User>,
    pub backup_state: RestoreReport,
}

/// What a [`BackupSettings`] holds.
pub struct BackupSettingsView {
    pub backups: Seq<Seq<char>>,
    pub selected: Option<Seq<char>>,
    pub users: Seq<User>,
    pub selected_user: Option<User>,
    pub backup_state: RestoreReportView,
}

impl DeepView for BackupSettings {
    type V = BackupSettingsView;

    open spec fn deep_view(&self) -> BackupSettingsView {
        BackupSettingsView {
            backups: self.backups.deep_view(),
            selected: self.selected.deep_view(),
            users: self.users@,
            selected_user: self.selected_user,
            backup_state: self.backup_state@,
        }
    }
}

impl View for BackupSettings {
    type V = BackupSettingsView;

    open spec fn view(&self) -> BackupSettingsView {
        self.deep_view()
    }
}

/// A copy of a list of names.
pub fn copy_names(names: &Vec<String>) -> (copy: Vec<String>)
    ensures
        copy.deep_view() == names.deep_view(),
{
    let mut copy: Vec<String> = Vec::new();
    let mut i: usize = 0;
    while i < names.len()
        invariant
            i <= names.len(),
            copy@.len() == i,
            forall|j: int| 0 <= j < i ==> (#[trigger] copy@[j])@ == names@[j]@,
        decreases names.len() - i,
    {
        copy.push(names[i].clone());
        i += 1;
    }
    assert(copy.deep_view() =~= names.deep_view());
    copy
}

/// A copy of a name that may be missing.
pub fn copy_name(name: &Option<String>) -> (copy: Option<String>)
    ensures
        copy.deep_view() == name.deep_view(),
{
    match name {
        Some(text) => Some(text.clone()),
        None => None,
    }
}

/// The first of the names, if there is one.
pub fn first_name(names: &Vec<String>) -> (first: Option<String>)
    ensures
        first.deep_view() == first_of(names.deep_view()),
{
    if names.len() > 0 {
        Some(names[0].clone())
    } else {
        None
    }
}

/// The first entry of a sequence, if there is one.
pub open spec fn first_of<T>(entries: Seq<T>) -> Option<T> {
    if entries.len() > 0 {
        Some(entries[0])
    } else {
        None
    }
}

/// The backup settings of a device whose backups have not been listed:
/// its users, the first of them chosen, and nothing else.
pub open spec fn fresh_backup(users: Seq<User>) -> BackupSettingsView {
    BackupSettingsView {
        backups: Seq::empty(),
        selected: None,
        users,
        selected_user: first_of(users),
        backup_state: RestoreReportView::Nothing,
    }
}

impl Clone for BackupSettings {
    fn clone(&self) -> (copy: BackupSettings)
        ensures
            copy@ == self@,
    {
        BackupSettings {
            backups: copy_names(&self.backups),
            selected: copy_name(&self.selected),
            users: copy_users(&self.users),
            selected_user: self.selected_user,
            backup_state: self.backup_state.clone(),
        }
    }
}

impl BackupSettings {
    /// The backup settings of a device with these users, before its backups
    /// have been listed.
    pub fn fresh(users: &Vec<User>) -> (backup: BackupSettings)
        ensures
            backup@ == fresh_backup(users@),
    {
        let selected_user = if users.len() > 0 {
            Some(users[0])
        } else {
            None
        };
        let backup = BackupSettings {
            backups: Vec::new(),
            selected: None,
            users: copy_users(users),
            selected_user,
            backup_state: RestoreReport::Nothing,
        };
        assert(backup@.backups =~= Seq::empty());
        backup
    }
}

impl Default for BackupSettings {
    fn default() -> (backup: BackupSettings)
        ensures
            backup@ == fresh_backup(Seq::empty()),
    {
        BackupSettings::fresh(&Vec::new())
    }
}

/// Settings of one device, kept under its identity.
#[derive(Debug, PartialEq, Eq)]
pub struct DeviceSettings {
    pub device_id: String,
    pub disable_mode: bool,
    pub multi_user_mode: bool,
    pub backup: BackupSettings,
}

/// What a [`DeviceSettings`] holds.
pub struct DeviceSettingsView {
    pub device_id: Seq<char>,
    pub disable_mode: bool,
    pub multi_user_mode: bool,
    pub backup: BackupSettingsView,
}

impl DeepView for DeviceSettings {
    type V = DeviceSettingsView;

    open spec fn deep_view(&self) -> DeviceSettingsView {
        DeviceSettingsView {
            device_id: self.device_id@,
            disable_mode: self.disable_mode,
            multi_user_mode: self.multi_user_mode,
            backup: self.backup@,
        }
    }
}

impl View for DeviceSettings {
    type V = DeviceSettingsView;

    open spec fn view(&self) -> DeviceSettingsView {
        self.deep_view()
    }
}

impl Clone for DeviceSettings {
    fn clone(&self) -> (copy: DeviceSettings)
        ensures
            copy@ == self@,
    {
        DeviceSettings {
            device_id: self.device_id.clone(),
            disable_mode: self.disable_mode,
            multi_user_mode: self.multi_user_mode,
            backup: self.backup.clone(),
        }
    }
}

/// The settings of no device.
pub open spec fn no_settings() -> DeviceSettingsView {
    DeviceSettingsView {
        device_id: Seq::empty(),
        disable_mode: false,
        multi_user_mode: false,
        backup: fresh_backup(Seq::empty()),
    }
}

impl Default for DeviceSettings {
    fn default() -> (settings: DeviceSettings)
        ensures
            settings@ == no_settings(),
    {
        DeviceSettings {
            device_id: String::new(),
            disable_mode: false,
            multi_user_mode: false,
            backup: BackupSettings::default(),
        }
    }
}

/// What the settings store keeps.
#[derive(Debug, PartialEq, Eq)]
pub struct Config {
    pub general: GeneralSettings,
    pub devices: Vec<DeviceSettings>,
}

/// What a [`Config`] holds.
pub struct ConfigView {
    pub general: GeneralSettingsView,
    pub devices: Seq<DeviceSettingsView>,
}

impl DeepView for Config {
    type V = ConfigView;

    open spec fn deep_view(&self) -> ConfigView {
        ConfigView { general: self.general@, devices: self.devices.deep_view() }
    }
}

impl View for Config {
    type V = ConfigView;

    open spec fn view(&self) -> ConfigView {
        self.deep_view()
    }
}

/// Settings are kept for the device of identity `id`.
pub open spec fn kept(stored: Seq<DeviceSettingsView>, id: Seq<char>) -> bool {
    exists|i: int| 0 <= i < stored.len() && (#[trigger] stored[i]).device_id == id
}

/// `i` is the first position in `stored` of settings for the identity `id`.
pub open spec fn is_first_kept(stored: Seq<DeviceSettingsView>, id: Seq<char>, i: int) -> bool {
    &&& 0 <= i < stored.len()
    &&& stored[i].device_id == id
    &&& forall|j: int| 0 <= j < i ==> (#[trigger] stored[j]).device_id != id
}

/// The first position in `stored` of settings for the identity `id`.
pub open spec fn first_kept(stored: Seq<DeviceSettingsView>, id: Seq<char>) -> int {
    choose|i: int| is_first_kept(stored, id, i)
}

/// A first position is the only one.
pub proof fn lemma_first_kept_unique(stored: Seq<DeviceSettingsView>, id: Seq<char>, i: int)
    requires
        is_first_kept(stored, id, i),
    ensures
        first_kept(stored, id) == i,
{
    let k = first_kept(stored, id);
    assert(is_first_kept(stored, id, k));
    if k < i {
        assert(stored[k].device_id != id);
    } else if i < k {
        assert(stored[i].device_id != id);
    }
}

/// Settings that are kept have a first position.
pub proof fn lemma_kept_has_first(stored: Seq<DeviceSettingsView>, id: Seq<char>)
    requires
        kept(stored, id),
    ensures
        is_first_kept(stored, id, first_kept(stored, id)),
{
    let w = choose|i: int| 0 <= i < stored.len() && (#[trigger] stored[i]).device_id == id;
    lemma_first_kept_below(stored, id, w);
}

proof fn lemma_first_kept_below(stored: Seq<DeviceSettingsView>, id: Seq<char>, w: int)
    requires
        0 <= w < stored.len(),
        stored[w].device_id == id,
    ensures
        is_first_kept(stored, id, first_kept(stored, id)),
    decreases w,
{
    if exists|j: int| 0 <= j < w && (#[trigger] stored[j]).device_id == id {
        let j = choose|j: int| 0 <= j < w && (#[trigger] stored[j]).device_id == id;
        lemma_first_kept_below(stored, id, j);
    } else {
        assert(is_first_kept(stored, id, w));
    }
}

/// The settings that a device gets: those kept under its identity, and
/// where none are kept, the defaults, with multi-user mode as the platform
/// of the device allows. Either way the backups start out unlisted.
pub open spec fn loaded(stored: Seq<DeviceSettingsView>, phone: PhoneView) -> DeviceSettingsView {
    if kept(stored, phone.adb_id) {
        let found = stored[first_kept(stored, phone.adb_id)];
        DeviceSettingsView {
            device_id: found.device_id,
            disable_mode: found.disable_mode,
            multi_user_mode: found.multi_user_mode,
            backup: fresh_backup(phone.user_list),
        }
    } else {
        DeviceSettingsView {
            device_id: phone.adb_id,
            disable_mode: false,
            multi_user_mode: multi_user_capable(phone),
            backup: fresh_backup(phone.user_list),
        }
    }
}

/// The settings that a device gets are kept under its own identity.
pub proof fn lemma_loaded_identity(stored: Seq<DeviceSettingsView>, phone: PhoneView)
    ensures
        loaded(stored, phone).device_id == phone.adb_id,
        loaded(stored, phone).backup == fresh_backup(phone.user_list),
{
    if kept(stored, phone.adb_id) {
        lemma_kept_has_first(stored, phone.adb_id);
    }
}

/// What is kept after `device` has been saved: its settings stand where
/// settings of its identity stood first, or at the end where none did.
pub open spec fn saved(stored: Seq<DeviceSettingsView>, device: DeviceSettingsView) -> Seq<
    DeviceSettingsView,
> {
    if kept(stored, device.device_id) {
        stored.update(first_kept(stored, device.device_id), device)
    } else {
        stored.push(device)
    }
}

/// Position in `stored` of the first settings kept for `id`, if any.
pub fn find_settings(stored: &Vec<DeviceSettings>, id: &String) -> (found: Option<usize>)
    ensures
        found is Some <==> kept(stored.deep_view(), id@),
        found is Some ==> is_first_kept(stored.deep_view(), id@, found->0 as int),
        found is Some ==> found->0 == first_kept(stored.deep_view(), id@),
{
    let mut i: usize = 0;
    while i < stored.len()
        invariant
            i <= stored.len(),
            forall|j: int| 0 <= j < i ==> (#[trigger] stored.deep_view()[j]).device_id != id@,
        decreases stored.len() - i,
    {
        if stored[i].device_id == *id {
            proof {
                assert(stored.deep_view()[i as int].device_id == id@);
                assert(is_first_kept(stored.deep_view(), id@, i as int));
                lemma_first_kept_unique(stored.deep_view(), id@, i as int);
            }
            return Some(i);
        }
        i += 1;
    }
    None
}

/// Gives a device its settings.
pub fn load(stored: &Vec<DeviceSettings>, phone: &Phone) -> (settings: DeviceSettings)
    ensures
        settings@ == loaded(stored.deep_view(), phone@),
{
    match find_settings(stored, &phone.adb_id) {
        Some(i) => {
            let found = &stored[i];
            DeviceSettings {
                device_id: found.device_id.clone(),
                disable_mode: found.disable_mode,
                multi_user_mode: found.multi_user_mode,
                backup: BackupSettings::fresh(&phone.user_list),
            }
        },
        None => DeviceSettings {
            device_id: phone.adb_id.clone(),
            disable_mode: false,
            multi_user_mode: phone.supports_multi_user(),
            backup: BackupSettings::fresh(&phone.user_list),
        },
    }
}

/// Keeps the settings of a device under its identity, in place of what was
/// kept under it before.
pub fn save(stored: &mut Vec<DeviceSettings>, device: &DeviceSettings)
    ensures
        final(stored).deep_view() == saved(old(stored).deep_view(), device@),
{
    let copy = device.clone();
    match find_settings(stored, &device.device_id) {
        Some(i) => {
            stored[i] = copy;
            assert(stored.deep_view() =~= saved(old(stored).deep_view(), device@));
        },
        None => {
            stored.push(copy);
            assert(stored.deep_view() =~= saved(old(stored).deep_view(), device@));
        },
    }
}

/// A device gets back the modes that were saved under its identity.
pub proof fn lemma_load_after_save(
    stored: Seq<DeviceSettingsView>,
    device: DeviceSettingsView,
    phone: PhoneView,
)
    requires
        phone.adb_id == device.device_id,
    ensures
        loaded(saved(stored, device), phone).device_id == device.device_id,
        loaded(saved(stored, device), phone).disable_mode == device.disable_mode,
        loaded(saved(stored, device), phone).multi_user_mode == device.multi_user_mode,
{
    let id = device.device_id;
    let after = saved(stored, device);
    if kept(stored, id) {
        lemma_kept_has_first(stored, id);
        let k = first_kept(stored, id);
        assert(after[k] == device);
        assert forall|j: int| 0 <= j < k implies (#[trigger] after[j]).device_id != id by {
            assert(after[j] == stored[j]);
        }
        assert(is_first_kept(after, id, k));
        lemma_first_kept_unique(after, id, k);
    } else {
        let k = stored.len() as int;
        assert(after[k] == device);
        assert forall|j: int| 0 <= j < k implies (#[trigger] after[j]).device_id != id by {
            assert(after[j] == stored[j]);
        }
        assert(is_first_kept(after, id, k));
        lemma_first_kept_unique(after, id, k);
    }
}

/// Saving the settings of one device leaves those of every other device
/// as they were.
pub proof fn lemma_save_spares_others(
    stored: Seq<DeviceSettingsView>,
    device: DeviceSettingsView,
    phone: PhoneView,
)
    requires
        phone.adb_id != device.device_id,
    ensures
        loaded(saved(stored, device), phone) == loaded(stored, phone),
{
    let id = phone.adb_id;
    let after = saved(stored, device);
    if kept(stored, device.device_id) {
        lemma_kept_has_first(stored, device.device_id);
    }
    assert forall|j: int| 0 <= j < stored.len() implies {
        &&& (#[trigger] after[j]).device_id == id <==> stored[j].device_id == id
        &&& stored[j].device_id == id ==> after[j] == stored[j]
    } by {}
    if kept(stored, id) {
        lemma_kept_has_first(stored, id);
        let k = first_kept(stored, id);
        assert(after[k] == stored[k]);
        assert forall|j: int| 0 <= j < k implies (#[trigger] after[j]).device_id != id by {
            assert(stored[j].device_id != id);
        }
        assert(is_first_kept(after, id, k));
        lemma_first_kept_unique(after, id, k);
    } else {
        if kept(after, id) {
            let w = choose|i: int| 0 <= i < after.len() && (#[trigger] after[i]).device_id == id;
            if w < stored.len() {
                assert(stored[w].device_id == id);
            }
            assert(false);
        }
    }
}

} // verus!
