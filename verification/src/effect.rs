//! Requests that the engine hands to its caller. The caller carries each
//! one out; what comes of it re-enters the engine as an event.

use crate::packages::PackageInfo;
use vstd::prelude::*;

verus! {

/// One instruction for the device bridge, bound to a device, a user
/// partition and a package.
#[derive(Debug, PartialEq, Eq)]
pub struct Command {
    pub device_id: String,
    pub package: PackageInfo,
    pub instruction: String,
}

/// What a [`Command`] holds.
pub struct CommandView {
    pub device_id: Seq<char>,
    pub package: PackageInfo,
    pub instruction: Seq<char>,
}

impl DeepView for Command {
    type V = CommandView;

    open spec fn deep_view(&self) -> CommandView {
        CommandView {
            device_id: self.device_id@,
            package: self.package,
            instruction: self.instruction@,
        }
    }
}

impl View for Command {
    type V = CommandView;

    open spec fn view(&self) -> CommandView {
        self.deep_view()
    }
}

impl Clone for Command {
    fn clone(&self) -> (copy: Command)
        ensures
            copy@ == self@,
    {
        Command {
            device_id: self.device_id.clone(),
            package: self.package,
            instruction: self.instruction.clone(),
        }
    }
}

/// A request to the outside.
#[derive(Debug, PartialEq, Eq)]
pub enum Effect {
    /// Find out whether the device bridge can be used.
    ProbeBridge,
    /// Enumerate the reachable devices.
    FetchDevices,
    /// Look up the latest release of the application.
    CheckLatestRelease,
    /// Reboot the device of this serial.
    Reboot { serial: String },
    /// Load the package descriptions, from the network where `remote`.
    LoadUadList { remote: bool },
    /// Load the package lists of this device, one per user.
    LoadPackages { device_id: String },
    /// Submit one command to the device bridge.
    SubmitCommand(Command),
    /// Write the configuration to the settings store.
    SaveConfig,
    /// List the backups kept for this device.
    ListBackups { device_id: String },
    /// Work out the commands that bring this device to the state of this
    /// backup.
    PlanRestore { device_id: String, backup: String },
    /// Write a backup of this device.
    BackupDevice { device_id: String },
    /// Let the user pick the backup folder.
    ChooseFolder,
    /// Export the list of uninstalled packages.
    ExportPackages,
    /// Open this location.
    OpenUrl(String),
    /// Download the latest release.
    DownloadUpdate,
    /// Replace the running process by the downloaded release.
    ReplaceProcess,
}

/// What an [`Effect`] holds.
pub enum EffectView {
    ProbeBridge,
    FetchDevices,
    CheckLatestRelease,
    Reboot { serial: Seq<char> },
    LoadUadList { remote: bool },
    LoadPackages { device_id: Seq<char> },
    SubmitCommand(CommandView),
    SaveConfig,
    ListBackups { device_id: Seq<char> },
    PlanRestore { device_id: Seq<char>, backup: Seq<char> },
    BackupDevice { device_id: Seq<char> },
    ChooseFolder,
    ExportPackages,
    OpenUrl(Seq<char>),
    DownloadUpdate,
    ReplaceProcess,
}

impl DeepView for Effect {
    type V = EffectView;

    open spec fn deep_view(&self) -> EffectView {
        match self {
            Effect::ProbeBridge => EffectView::ProbeBridge,
            Effect::FetchDevices => EffectView::FetchDevices,
            Effect::CheckLatestRelease => EffectView::CheckLatestRelease,
            Effect::Reboot { serial } => EffectView::Reboot { serial: serial@ },
            Effect::LoadUadList { remote } => EffectView::LoadUadList { remote: *remote },
            Effect::LoadPackages { device_id } => EffectView::LoadPackages {
                device_id: device_id@,
            },
            Effect::SubmitCommand(command) => EffectView::SubmitCommand(command@),
            Effect::SaveConfig => EffectView::SaveConfig,
            Effect::ListBackups { device_id } => EffectView::ListBackups { device_id: device_id@ },
            Effect::PlanRestore { device_id, backup } => EffectView::PlanRestore {
                device_id: device_id@,
                backup: backup@,
            },
            Effect::BackupDevice { device_id } => EffectView::BackupDevice {
                device_id: device_id@,
            },
            Effect::ChooseFolder => EffectView::ChooseFolder,
            Effect::ExportPackages => EffectView::ExportPackages,
            Effect::OpenUrl(url) => EffectView::OpenUrl(url@),
            Effect::DownloadUpdate => EffectView::DownloadUpdate,
            Effect::ReplaceProcess => EffectView::ReplaceProcess,
        }
    }
}

impl View for Effect {
    type V = EffectView;

    open spec fn view(&self) -> EffectView {
        self.deep_view()
    }
}

impl Clone for Effect {
    fn clone(&self) -> (copy: Effect)
        ensures
            copy@ == self@,
    {
        match self {
            Effect::ProbeBridge => Effect::ProbeBridge,
            Effect::FetchDevices => Effect::FetchDevices,
            Effect::CheckLatestRelease => Effect::CheckLatestRelease,
            Effect::Reboot { serial } => Effect::Reboot { serial: serial.clone() },
            Effect::LoadUadList { remote } => Effect::LoadUadList { remote: *remote },
            Effect::LoadPackages { device_id } => Effect::LoadPackages {
                device_id: device_id.clone(),
            },
            Effect::SubmitCommand(command) => Effect::SubmitCommand(command.clone()),
            Effect::SaveConfig => Effect::SaveConfig,
            Effect::ListBackups { device_id } => Effect::ListBackups {
                device_id: device_id.clone(),
            },
            Effect::PlanRestore { device_id, backup } => Effect::PlanRestore {
                device_id: device_id.clone(),
                backup: backup.clone(),
            },
            Effect::BackupDevice { device_id } => Effect::BackupDevice {
                device_id: device_id.clone(),
            },
            Effect::ChooseFolder => Effect::ChooseFolder,
            Effect::ExportPackages => Effect::ExportPackages,
            Effect::OpenUrl(url) => Effect::OpenUrl(url.clone()),
            Effect::DownloadUpdate => Effect::DownloadUpdate,
            Effect::ReplaceProcess => Effect::ReplaceProcess,
        }
    }
}

/// Appends a request to a list of requests.
pub fn emit(effects: &mut Vec<Effect>, effect: Effect)
    ensures
        final(effects).deep_view() == old(effects).deep_view().push(effect@),
{
    effects.push(effect);
    assert(effects.deep_view() =~= old(effects).deep_view().push(effect@));
}

} // verus!
