//! The application as a whole: its state, its events, and the loop that
//! takes one event at a time.
//!
//! An event may call for further events: a refreshed list of devices calls
//! for the settings of the selected device to be loaded, a batch that has
//! drained calls for a refresh. [`UadGui::update`] keeps them in a queue and
//! works the queue off before it returns, so that the state it leaves is
//! settled.

pub mod replay;
pub mod style;
pub mod views;

use crate::batch::{completed, drains, opened, Batch, CommandOutcome, BatchView};
use crate::config::Config;
use crate::device::{copy_phones, no_device, reconcile, reconciled, Phone, PhoneView};
use crate::effect::{emit, Effect, EffectView};
use crate::gui::views::about::Message as AboutMessage;
use crate::gui::views::list::{
    completion_shown, discarded, empty_list, list_step, waiting_for, List, ListView,
    LoadingState,
    Message as AppsMessage,
};
use crate::gui::views::settings::{
    initial_settings, settings_step, Message as SettingsMessage, Settings, SettingsView,
};
use crate::packages::{propagate, propagated};
use crate::release::{
    can_check, can_update, check_finished, check_started, idle, update_failed, update_started,
    Release, SelfUpdateState, SelfUpdateView, UadListState,
};
use std::collections::VecDeque;
use vstd::prelude::*;

verus! {

/// The view that is shown.
#[derive(Debug, Clone, Copy, PartialEq, Eq, Structural)]
pub enum Page {
    List,
    About,
    Settings,
}

/// How far the updates have come: that of the application itself and that
/// of the package descriptions.
#[derive(Debug, PartialEq, Eq)]
pub struct UpdateState {
    pub self_update: SelfUpdateState,
    pub uad_list: UadListState,
}

/// What an [`UpdateState`] holds.
pub struct UpdateStateView {
    pub self_update: SelfUpdateView,
    pub uad_list: UadListState,
}

impl DeepView for UpdateState {
    type V = UpdateStateView;

    open spec fn deep_view(&self) -> UpdateStateView {
        UpdateStateView { self_update: self.self_update@, uad_list: self.uad_list }
    }
}

impl View for UpdateState {
    type V = UpdateStateView;

    open spec fn view(&self) -> UpdateStateView {
        self.deep_view()
    }
}

impl Default for UpdateState {
    fn default() -> (state: UpdateState)
        ensures
            state@ == (UpdateStateView {
                self_update: idle(),
                uad_list: UadListState::Downloading,
            }),
    {
        UpdateState { self_update: SelfUpdateState::new(), uad_list: UadListState::Downloading }
    }
}

/// State of the application.
#[derive(Debug, PartialEq, Eq)]
pub struct UadGui {
    view: Page,
    apps_view: List,
    settings_view: Settings,
    devices_list: Vec<Phone>,
    selected_device: Option<Phone>,
    update_state: UpdateState,
    batch: Batch,
    adb_satisfied: bool,
}

/// What an [`UadGui`] holds.
pub struct GuiView {
    pub view: Page,
    pub apps: ListView,
    pub settings: SettingsView,
    pub devices: Seq<PhoneView>,
    pub selected: Option<PhoneView>,
    pub update: UpdateStateView,
    pub batch: BatchView,
    pub adb_satisfied: bool,
}

impl DeepView for UadGui {
    type V = GuiView;

    closed spec fn deep_view(&self) -> GuiView {
        GuiView {
            view: self.view,
            apps: self.apps_view@,
            settings: self.settings_view@,
            devices: self.devices_list.deep_view(),
            selected: self.selected_device.deep_view(),
            update: self.update_state@,
            batch: self.batch@,
            adb_satisfied: self.adb_satisfied,
        }
    }
}

impl View for UadGui {
    type V = GuiView;

    open spec fn view(&self) -> GuiView {
        self.deep_view()
    }
}

/// An event of the application.
#[derive(Debug, PartialEq, Eq)]
pub enum Message {
    AboutPressed,
    SettingsPressed,
    AppsPress,
    DeviceSelected(Phone),
    AboutAction(AboutMessage),
    AppsAction(AppsMessage),
    SettingsAction(SettingsMessage),
    RefreshButtonPressed,
    RebootButtonPressed,
    /// The reachable devices have been enumerated.
    LoadDevices(Vec<Phone>),
    /// The download of the latest release has ended.
    NewReleaseDownloaded(Result<(), ()>),
    /// The lookup of the latest release has ended.
    GetLatestRelease(Result<Option<Release>, ()>),
    Nothing,
    /// It is known whether the device bridge can be used.
    ADBSatisfied(bool),
}

/// Two events say the same.
pub open spec fn alike(a: Message, b: Message) -> bool {
    match (a, b) {
        (Message::AboutPressed, Message::AboutPressed) => true,
        (Message::SettingsPressed, Message::SettingsPressed) => true,
        (Message::AppsPress, Message::AppsPress) => true,
        (Message::DeviceSelected(x), Message::DeviceSelected(y)) => x@ == y@,
        (Message::AboutAction(x), Message::AboutAction(y)) => crate::gui::views::about::alike(x, y),
        (Message::AppsAction(x), Message::AppsAction(y)) => crate::gui::views::list::alike(x, y),
        (Message::SettingsAction(x), Message::SettingsAction(y)) => {
            crate::gui::views::settings::alike(x, y)
        },
        (Message::RefreshButtonPressed, Message::RefreshButtonPressed) => true,
        (Message::RebootButtonPressed, Message::RebootButtonPressed) => true,
        (Message::LoadDevices(x), Message::LoadDevices(y)) => x.deep_view() == y.deep_view(),
        (Message::NewReleaseDownloaded(x), Message::NewReleaseDownloaded(y)) => {
            x is Ok <==> y is Ok
        },
        (Message::GetLatestRelease(x), Message::GetLatestRelease(y)) => match (x, y) {
            (Ok(p), Ok(q)) => p.deep_view() == q.deep_view(),
            (Err(_), Err(_)) => true,
            _ => false,
        },
        (Message::Nothing, Message::Nothing) => true,
        (Message::ADBSatisfied(x), Message::ADBSatisfied(y)) => x == y,
        _ => false,
    }
}

impl Clone for Message {
    fn clone(&self) -> (copy: Message)
        ensures
            alike(*self, copy),
    {
        match self {
            Message::AboutPressed => Message::AboutPressed,
            Message::SettingsPressed => Message::SettingsPressed,
            Message::AppsPress => Message::AppsPress,
            Message::DeviceSelected(phone) => Message::DeviceSelected(phone.clone()),
            Message::AboutAction(msg) => Message::AboutAction(msg.clone()),
            Message::AppsAction(msg) => Message::AppsAction(msg.clone()),
            Message::SettingsAction(msg) => Message::SettingsAction(msg.clone()),
            Message::RefreshButtonPressed => Message::RefreshButtonPressed,
            Message::RebootButtonPressed => Message::RebootButtonPressed,
            Message::LoadDevices(list) => Message::LoadDevices(copy_phones(list)),
            Message::NewReleaseDownloaded(downloaded) => Message::NewReleaseDownloaded(
                match downloaded {
                    Ok(_) => Ok(()),
                    Err(_) => Err(()),
                },
            ),
            Message::GetLatestRelease(found) => Message::GetLatestRelease(
                match found {
                    Ok(Some(release)) => Ok(Some(release.clone())),
                    Ok(None) => Ok(None),
                    Err(_) => Err(()),
                },
            ),
            Message::Nothing => Message::Nothing,
            Message::ADBSatisfied(satisfied) => Message::ADBSatisfied(*satisfied),
        }
    }
}

/// What one event leads to: the state after it, the events that it calls
/// for, and the requests to the outside.
pub struct Step {
    pub state: GuiView,
    pub followups: Seq<Message>,
    pub effects: Seq<EffectView>,
}

/// What a run of events leads to: the state after them and the requests
/// to the outside, in the order in which they were made.
pub struct Outcome {
    pub state: GuiView,
    pub effects: Seq<EffectView>,
}

/// The state at the start, from what the settings store holds.
pub open spec fn initial_state(config: crate::config::ConfigView) -> GuiView {
    GuiView {
        view: Page::List,
        apps: empty_list(),
        settings: initial_settings(config),
        devices: Seq::empty(),
        selected: None,
        update: UpdateStateView { self_update: idle(), uad_list: UadListState::Downloading },
        batch: opened(0),
        adb_satisfied: false,
    }
}

/// The state once the latest release is being looked up.
pub open spec fn lookup_started(s: GuiView) -> GuiView {
    GuiView {
        update: UpdateStateView {
            self_update: check_started(s.update.self_update),
            uad_list: s.update.uad_list,
        },
        ..s
    }
}

/// The selected device, or the device that stands for none.
pub open spec fn current_phone(s: GuiView) -> PhoneView {
    match s.selected {
        Some(phone) => phone,
        None => no_device(),
    }
}

/// A step that calls for nothing.
pub open spec fn at_rest(state: GuiView) -> Step {
    Step { state, followups: Seq::empty(), effects: Seq::empty() }
}

/// The identity of the selected device; empty where none is selected.
pub open spec fn identity_of(selected: Option<PhoneView>) -> Seq<char> {
    match selected {
        Some(phone) => phone.adb_id,
        None => Seq::empty(),
    }
}

/// The package list once the selection has come to `selected`: packages
/// of another device than the selected one are discarded.
pub open spec fn packages_for(apps: ListView, selected: Option<PhoneView>) -> ListView {
    if apps.device_id == identity_of(selected) {
        apps
    } else {
        discarded(apps)
    }
}

/// The devices have been enumerated: the selection is reconciled with the
/// new list, and the settings and the package descriptions are loaded for
/// whatever it came to. Packages of a device that is no longer selected
/// are discarded.
pub open spec fn devices_loaded(s: GuiView, list: Seq<PhoneView>) -> Step {
    Step {
        state: GuiView {
            selected: reconciled(s.selected, list),
            devices: list,
            apps: packages_for(s.apps, reconciled(s.selected, list)),
            ..s
        },
        followups: seq![
            Message::SettingsAction(SettingsMessage::LoadDeviceSettings),
            Message::AppsAction(AppsMessage::LoadUadList(true)),
        ],
        effects: Seq::empty(),
    }
}

/// A refresh: the packages are dropped and the devices enumerated anew.
pub open spec fn refreshed(s: GuiView) -> Step {
    Step {
        state: GuiView { apps: empty_list(), ..s },
        followups: seq![Message::AppsAction(AppsMessage::ADBSatisfied(s.adb_satisfied))],
        effects: seq![EffectView::FetchDevices],
    }
}

/// A reboot of the selected device: nothing is known of any device any
/// more.
pub open spec fn rebooted(s: GuiView) -> Step {
    Step {
        state: GuiView { apps: empty_list(), selected: None, devices: Seq::empty(), ..s },
        followups: Seq::empty(),
        effects: seq![
            EffectView::Reboot {
                serial: match s.selected {
                    Some(phone) => phone.adb_id,
                    None => Seq::empty(),
                },
            },
        ],
    }
}

/// The user selected a device: its settings and its packages are loaded,
/// and the selection of packages starts out empty.
pub open spec fn device_selected(s: GuiView, phone: PhoneView) -> Step {
    Step {
        state: GuiView {
            selected: Some(phone),
            view: Page::List,
            apps: waiting_for(packages_for(s.apps, Some(phone)), LoadingState::FindingPhones),
            ..s
        },
        followups: seq![
            Message::SettingsAction(SettingsMessage::LoadDeviceSettings),
            Message::AppsAction(AppsMessage::ToggleAllSelected(false)),
            Message::AppsAction(AppsMessage::ClearSelectedPackages),
            Message::AppsAction(AppsMessage::LoadPhonePackages(UadListState::Done)),
        ],
        effects: Seq::empty(),
    }
}

/// The user opened the about view: the latest release is looked up anew,
/// unless an update is under way.
pub open spec fn about_opened(s: GuiView) -> Step {
    Step {
        state: GuiView {
            view: Page::About,
            update: UpdateStateView {
                self_update: check_started(s.update.self_update),
                uad_list: s.update.uad_list,
            },
            ..s
        },
        followups: Seq::empty(),
        effects: if can_check(s.update.self_update) {
            seq![EffectView::CheckLatestRelease]
        } else {
            Seq::empty()
        },
    }
}

/// An event of the about view.
pub open spec fn about_stepped(s: GuiView, msg: AboutMessage) -> Step {
    match msg {
        AboutMessage::UpdateUadLists => Step {
            state: GuiView {
                update: UpdateStateView {
                    self_update: s.update.self_update,
                    uad_list: UadListState::Downloading,
                },
                apps: waiting_for(s.apps, LoadingState::DownloadingList),
                ..s
            },
            followups: seq![Message::AppsAction(AppsMessage::LoadUadList(true))],
            effects: Seq::empty(),
        },
        AboutMessage::DoSelfUpdate => if can_update(s.update.self_update) {
            Step {
                state: GuiView {
                    update: UpdateStateView {
                        self_update: update_started(s.update.self_update),
                        uad_list: s.update.uad_list,
                    },
                    apps: waiting_for(s.apps, LoadingState::UpdatingUad),
                    ..s
                },
                followups: Seq::empty(),
                effects: seq![EffectView::DownloadUpdate],
            }
        } else {
            at_rest(s)
        },
        AboutMessage::UrlPressed(url) => Step {
            state: s,
            followups: Seq::empty(),
            effects: seq![EffectView::OpenUrl(url@)],
        },
    }
}

/// An event of the package list.
pub open spec fn apps_stepped(s: GuiView, msg: AppsMessage) -> Step {
    let r = list_step(s.apps, current_phone(s), s.update.uad_list, msg);
    Step {
        state: GuiView {
            apps: r.list,
            update: UpdateStateView { self_update: s.update.self_update, uad_list: r.uad_list },
            ..s
        },
        followups: Seq::empty(),
        effects: r.effects,
    }
}

/// An event of the settings view.
pub open spec fn settings_stepped(s: GuiView, msg: SettingsMessage) -> Step {
    let r = settings_step(s.settings, current_phone(s), s.batch, msg);
    Step {
        state: GuiView { settings: r.settings, batch: r.batch, ..s },
        followups: Seq::empty(),
        effects: r.effects,
    }
}

/// Multi-user mode is switched from off to on, with a device selected.
pub open spec fn multi_user_switched_on(s: GuiView, toggled: bool) -> bool {
    toggled && !s.settings.device.multi_user_mode && s.selected is Some
}

/// The user toggled multi-user mode. Where that switches it from off to
/// on, the selection spreads over the users of the device, once; the mode
/// is then set and kept as for any other setting.
pub open spec fn multi_user_toggled(s: GuiView, toggled: bool) -> Step {
    let apps = if multi_user_switched_on(s, toggled) {
        ListView {
            phone_packages: propagated(s.apps.phone_packages, s.selected->0.user_list),
            ..s.apps
        }
    } else {
        s.apps
    };
    settings_stepped(GuiView { apps, ..s }, SettingsMessage::MultiUserMode(toggled))
}

/// The outcome is that of a command for the device that is selected now.
pub open spec fn concerns_selected(s: GuiView, outcome: CommandOutcome) -> bool {
    outcome@.device_id == current_phone(s).adb_id
}

/// One command of a batch has completed: the counter goes down by one,
/// whatever came of the command, and a failure is kept. The completion that
/// takes the counter to zero calls for a refresh. The package list is shown,
/// and shows the restore, only where the command was for the device that is
/// selected now: the completion of a command for another device is counted
/// and otherwise passed over.
pub open spec fn command_completed(s: GuiView, outcome: CommandOutcome) -> Step {
    Step {
        state: GuiView {
            batch: completed(s.batch, outcome@),
            view: if concerns_selected(s, outcome) {
                Page::List
            } else {
                s.view
            },
            apps: completion_shown(s.apps, current_phone(s), outcome@),
            ..s
        },
        followups: if drains(s.batch) {
            seq![Message::RefreshButtonPressed]
        } else {
            Seq::empty()
        },
        effects: Seq::empty(),
    }
}

/// The download of the latest release has ended: in success, the process
/// is to be replaced; in failure, the update has failed.
pub open spec fn release_downloaded(s: GuiView, downloaded: Result<(), ()>) -> Step {
    match downloaded {
        Ok(_) => Step {
            state: s,
            followups: Seq::empty(),
            effects: seq![EffectView::ReplaceProcess],
        },
        Err(_) => Step {
            state: GuiView {
                update: UpdateStateView {
                    self_update: update_failed(s.update.self_update),
                    uad_list: s.update.uad_list,
                },
                ..s
            },
            followups: seq![Message::AppsAction(AppsMessage::UpdateFailed)],
            effects: Seq::empty(),
        },
    }
}

/// What one event leads to.
pub open spec fn step_of(s: GuiView, msg: Message) -> Step {
    match msg {
        Message::LoadDevices(list) => devices_loaded(s, list.deep_view()),
        Message::AppsPress => at_rest(GuiView { view: Page::List, ..s }),
        Message::AboutPressed => about_opened(s),
        Message::SettingsPressed => at_rest(GuiView { view: Page::Settings, ..s }),
        Message::RefreshButtonPressed => refreshed(s),
        Message::RebootButtonPressed => rebooted(s),
        Message::AppsAction(msg) => apps_stepped(s, msg),
        Message::SettingsAction(msg) => match msg {
            SettingsMessage::RestoringDevice(outcome) => command_completed(s, outcome),
            SettingsMessage::MultiUserMode(toggled) => multi_user_toggled(s, toggled),
            _ => settings_stepped(s, msg),
        },
        Message::AboutAction(msg) => about_stepped(s, msg),
        Message::DeviceSelected(phone) => device_selected(s, phone@),
        Message::NewReleaseDownloaded(downloaded) => release_downloaded(s, downloaded),
        Message::GetLatestRelease(found) => at_rest(
            GuiView {
                update: UpdateStateView {
                    self_update: check_finished(s.update.self_update, found),
                    uad_list: s.update.uad_list,
                },
                ..s
            },
        ),
        Message::Nothing => at_rest(s),
        Message::ADBSatisfied(satisfied) => Step {
            state: GuiView { adb_satisfied: satisfied, ..s },
            followups: seq![Message::AppsAction(AppsMessage::ADBSatisfied(satisfied))],
            effects: Seq::empty(),
        },
    }
}

/// A bound on the events that an event can lead to, itself included.
pub open spec fn weight(msg: Message) -> nat {
    match msg {
        Message::DeviceSelected(_) => 5,
        Message::LoadDevices(_) => 3,
        Message::SettingsAction(SettingsMessage::RestoringDevice(_)) => 4,
        Message::RefreshButtonPressed => 2,
        Message::ADBSatisfied(_) => 2,
        Message::AboutAction(AboutMessage::UpdateUadLists) => 2,
        Message::NewReleaseDownloaded(_) => 2,
        _ => 1,
    }
}

/// The weights of the events of a queue, added up.
pub open spec fn queue_weight(queue: Seq<Message>) -> nat
    decreases queue.len(),
{
    if queue.len() == 0 {
        0
    } else {
        weight(queue[0]) + queue_weight(queue.drop_first())
    }
}

/// The weight of two queues in a row is the sum of their weights.
pub proof fn lemma_queue_weight_sum(front: Seq<Message>, back: Seq<Message>)
    ensures
        queue_weight(front + back) == queue_weight(front) + queue_weight(back),
    decreases front.len(),
{
    if front.len() == 0 {
        assert(front + back =~= back);
    } else {
        assert((front + back).drop_first() =~= front.drop_first() + back);
        lemma_queue_weight_sum(front.drop_first(), back);
    }
}

/// The events that an event calls for weigh less than the event itself.
pub proof fn lemma_followups_weigh_less(s: GuiView, msg: Message)
    ensures
        queue_weight(step_of(s, msg).followups) < weight(msg),
{
    let followups = step_of(s, msg).followups;
    reveal_with_fuel(queue_weight, 5);
    if followups.len() == 4 {
        assert(followups.drop_first().drop_first().drop_first().drop_first().len() == 0);
    }
}

/// Works off a queue of events, front first. The events that an event
/// calls for are taken before the rest of the queue.
pub open spec fn run(s: GuiView, queue: Seq<Message>) -> Outcome
    decreases queue_weight(queue),
{
    if queue.len() == 0 {
        Outcome { state: s, effects: Seq::empty() }
    } else {
        let taken = step_of(s, queue[0]);
        proof {
            lemma_followups_weigh_less(s, queue[0]);
            lemma_queue_weight_sum(taken.followups, queue.drop_first());
        }
        let rest = run(taken.state, taken.followups + queue.drop_first());
        Outcome { state: rest.state, effects: taken.effects + rest.effects }
    }
}

/// The outcome of one event, with all that it calls for.
pub open spec fn updated(s: GuiView, msg: Message) -> Outcome {
    run(s, seq![msg])
}

/// Appends the requests of `more` to `effects`.
fn append_effects(effects: &mut Vec<Effect>, more: Vec<Effect>)
    ensures
        final(effects).deep_view() == old(effects).deep_view() + more.deep_view(),
{
    let ghost given = more.deep_view();
    let mut more = more;
    effects.append(&mut more);
    assert(effects.deep_view() =~= old(effects).deep_view() + given);
}

impl UadGui {
    /// The application before anything has happened.
    pub fn new(config: Config) -> (state: UadGui)
        ensures
            state@ == initial_state(config@),
    {
        let state = UadGui {
            view: Page::List,
            apps_view: List::default(),
            settings_view: Settings::new(config),
            devices_list: Vec::new(),
            selected_device: None,
            update_state: UpdateState::default(),
            batch: Batch::new(),
            adb_satisfied: false,
        };
        assert(state@.devices =~= Seq::empty());
        state
    }

    /// Starts the application: the state to begin with, and the requests
    /// that set it going. The device bridge is probed, the devices are
    /// enumerated, and the latest release is looked up.
    pub fn start(config: Config) -> (started: (UadGui, Vec<Effect>))
        ensures
            started.0@ == lookup_started(initial_state(config@)),
            started.1.deep_view() == seq![
                EffectView::ProbeBridge,
                EffectView::FetchDevices,
                EffectView::CheckLatestRelease,
            ],
    {
        let mut state = UadGui::new(config);
        let _ = state.update_state.self_update.start_check();
        let mut effects: Vec<Effect> = Vec::new();
        emit(&mut effects, Effect::ProbeBridge);
        emit(&mut effects, Effect::FetchDevices);
        emit(&mut effects, Effect::CheckLatestRelease);
        assert(effects.deep_view() =~= seq![
            EffectView::ProbeBridge,
            EffectView::FetchDevices,
            EffectView::CheckLatestRelease,
        ]);
        (state, effects)
    }

    /// The view that is shown.
    pub fn page(&self) -> (page: Page)
        ensures
            page == self@.view,
    {
        self.view
    }

    /// The package list.
    pub fn apps_view(&self) -> (apps: &List)
        ensures
            apps@ == self@.apps,
    {
        &self.apps_view
    }

    /// The settings view.
    pub fn settings_view(&self) -> (settings: &Settings)
        ensures
            settings@ == self@.settings,
    {
        &self.settings_view
    }

    /// The devices that the last enumeration found.
    pub fn devices_list(&self) -> (devices: &Vec<Phone>)
        ensures
            devices.deep_view() == self@.devices,
    {
        &self.devices_list
    }

    /// The selected device.
    pub fn selected_device(&self) -> (selected: Option<&Phone>)
        ensures
            selected.deep_view() == self@.selected,
    {
        self.selected_device.as_ref()
    }

    /// How far the updates have come.
    pub fn update_state(&self) -> (update: &UpdateState)
        ensures
            update@ == self@.update,
    {
        &self.update_state
    }

    /// The running batch: its counter and its last failure.
    pub fn batch(&self) -> (batch: &Batch)
        ensures
            batch@ == self@.batch,
    {
        &self.batch
    }

    /// The commands of the running batch that have not completed.
    pub fn nb_running_async_adb_commands(&self) -> (outstanding: usize)
        ensures
            outstanding == self@.batch.outstanding,
    {
        self.batch.outstanding
    }

    /// Whether the device bridge can be used.
    pub fn adb_satisfied(&self) -> (satisfied: bool)
        ensures
            satisfied == self@.adb_satisfied,
    {
        self.adb_satisfied
    }

    /// The selected device, or the device that stands for none.
    fn phone(&self) -> (phone: Phone)
        ensures
            phone@ == current_phone(self@),
    {
        match &self.selected_device {
            Some(phone) => phone.clone(),
            None => Phone::default(),
        }
    }

    /// Discards the packages of another device than the selected one.
    fn keep_packages_of_selected(&mut self)
        ensures
            final(self)@ == (GuiView {
                apps: packages_for(old(self)@.apps, old(self)@.selected),
                ..old(self)@
            }),
    {
        let kept = match &self.selected_device {
            Some(phone) => self.apps_view.device_id == phone.adb_id,
            None => self.apps_view.device_id.as_str().is_empty(),
        };
        proof {
            if self@.selected is None {
                assert(self@.apps.device_id.len() == 0 <==> self@.apps.device_id
                    =~= Seq::<char>::empty());
            }
        }
        if !kept {
            self.apps_view.discard();
        }
    }

    fn on_load_devices(&mut self, list: Vec<Phone>) -> (followups: Vec<Message>)
        ensures
            final(self)@ == devices_loaded(old(self)@, list.deep_view()).state,
            followups@ == devices_loaded(old(self)@, list.deep_view()).followups,
    {
        self.selected_device = reconcile(self.selected_device.as_ref(), &list);
        self.devices_list = list;
        self.keep_packages_of_selected();
        let mut followups: Vec<Message> = Vec::new();
        followups.push(Message::SettingsAction(SettingsMessage::LoadDeviceSettings));
        followups.push(Message::AppsAction(AppsMessage::LoadUadList(true)));
        assert(followups@ =~= devices_loaded(old(self)@, list.deep_view()).followups);
        followups
    }

    fn on_refresh(&mut self, effects: &mut Vec<Effect>) -> (followups: Vec<Message>)
        ensures
            final(self)@ == refreshed(old(self)@).state,
            followups@ == refreshed(old(self)@).followups,
            final(effects).deep_view() == old(effects).deep_view() + refreshed(old(self)@).effects,
    {
        self.apps_view = List::default();
        let mut followups: Vec<Message> = Vec::new();
        followups.push(Message::AppsAction(AppsMessage::ADBSatisfied(self.adb_satisfied)));
        emit(effects, Effect::FetchDevices);
        assert(followups@ =~= refreshed(old(self)@).followups);
        assert(effects.deep_view() =~= old(effects).deep_view() + refreshed(old(self)@).effects);
        followups
    }

    fn on_reboot(&mut self, effects: &mut Vec<Effect>)
        ensures
            final(self)@ == rebooted(old(self)@).state,
            final(effects).deep_view() == old(effects).deep_view() + rebooted(old(self)@).effects,
    {
        let serial = match &self.selected_device {
            Some(phone) => phone.adb_id.clone(),
            None => String::new(),
        };
        self.apps_view = List::default();
        self.selected_device = None;
        self.devices_list = Vec::new();
        let request = Effect::Reboot { serial };
        emit(effects, request);
        assert(self@.devices =~= Seq::empty());
        assert(effects.deep_view() =~= old(effects).deep_view() + seq![request@]);
    }

    fn on_device_selected(&mut self, phone: Phone) -> (followups: Vec<Message>)
        ensures
            final(self)@ == device_selected(old(self)@, phone@).state,
            followups@ == device_selected(old(self)@, phone@).followups,
    {
        self.selected_device = Some(phone);
        self.view = Page::List;
        self.keep_packages_of_selected();
        self.apps_view.loading_state = LoadingState::FindingPhones;
        let mut followups: Vec<Message> = Vec::new();
        followups.push(Message::SettingsAction(SettingsMessage::LoadDeviceSettings));
        followups.push(Message::AppsAction(AppsMessage::ToggleAllSelected(false)));
        followups.push(Message::AppsAction(AppsMessage::ClearSelectedPackages));
        followups.push(Message::AppsAction(AppsMessage::LoadPhonePackages(UadListState::Done)));
        assert(followups@ =~= device_selected(old(self)@, phone@).followups);
        followups
    }

    fn on_about_opened(&mut self, effects: &mut Vec<Effect>)
        ensures
            final(self)@ == about_opened(old(self)@).state,
            final(effects).deep_view() == old(effects).deep_view() + about_opened(
                old(self)@,
            ).effects,
    {
        self.view = Page::About;
        if self.update_state.self_update.start_check() {
            emit(effects, Effect::CheckLatestRelease);
        }
        assert(effects.deep_view() =~= old(effects).deep_view() + about_opened(old(self)@).effects);
    }

    fn on_about(&mut self, msg: AboutMessage, effects: &mut Vec<Effect>) -> (followups: Vec<
        Message,
    >)
        ensures
            final(self)@ == about_stepped(old(self)@, msg).state,
            followups@ == about_stepped(old(self)@, msg).followups,
            final(effects).deep_view() == old(effects).deep_view() + about_stepped(
                old(self)@,
                msg,
            ).effects,
    {
        let mut followups: Vec<Message> = Vec::new();
        match msg {
            AboutMessage::UpdateUadLists => {
                self.update_state.uad_list = UadListState::Downloading;
                self.apps_view.loading_state = LoadingState::DownloadingList;
                followups.push(Message::AppsAction(AppsMessage::LoadUadList(true)));
            },
            AboutMessage::DoSelfUpdate => {
                if self.update_state.self_update.start_update() {
                    self.apps_view.loading_state = LoadingState::UpdatingUad;
                    emit(effects, Effect::DownloadUpdate);
                }
            },
            AboutMessage::UrlPressed(url) => {
                emit(effects, Effect::OpenUrl(url));
            },
        }
        assert(followups@ =~= about_stepped(old(self)@, msg).followups);
        assert(effects.deep_view() =~= old(effects).deep_view() + about_stepped(
            old(self)@,
            msg,
        ).effects);
        followups
    }

    fn on_apps(&mut self, msg: AppsMessage, effects: &mut Vec<Effect>)
        ensures
            final(self)@ == apps_stepped(old(self)@, msg).state,
            final(effects).deep_view() == old(effects).deep_view() + apps_stepped(
                old(self)@,
                msg,
            ).effects,
    {
        let phone = self.phone();
        let requests = self.apps_view.update(&phone, &mut self.update_state.uad_list, msg);
        append_effects(effects, requests);
    }

    fn on_settings(&mut self, msg: SettingsMessage, effects: &mut Vec<Effect>)
        ensures
            final(self)@ == settings_stepped(old(self)@, msg).state,
            final(effects).deep_view() == old(effects).deep_view() + settings_stepped(
                old(self)@,
                msg,
            ).effects,
    {
        let phone = self.phone();
        let requests = self.settings_view.update(&phone, &mut self.batch, msg);
        append_effects(effects, requests);
    }

    fn on_multi_user(&mut self, toggled: bool, effects: &mut Vec<Effect>)
        ensures
            final(self)@ == multi_user_toggled(old(self)@, toggled).state,
            final(effects).deep_view() == old(effects).deep_view() + multi_user_toggled(
                old(self)@,
                toggled,
            ).effects,
    {
        if toggled && !self.settings_view.device.multi_user_mode {
            match &self.selected_device {
                Some(phone) => {
                    self.apps_view.phone_packages = propagate(
                        &self.apps_view.phone_packages,
                        &phone.user_list,
                    );
                },
                None => {},
            }
        }
        self.on_settings(SettingsMessage::MultiUserMode(toggled), effects);
    }

    fn on_completion(&mut self, outcome: CommandOutcome) -> (followups: Vec<Message>)
        ensures
            final(self)@ == command_completed(old(self)@, outcome).state,
            followups@ == command_completed(old(self)@, outcome).followups,
    {
        let phone = self.phone();
        if outcome.device_id == phone.adb_id {
            self.view = Page::List;
        }
        self.apps_view.show_completion(&phone, &outcome);
        let drained = self.batch.complete(outcome);
        let mut followups: Vec<Message> = Vec::new();
        if drained {
            followups.push(Message::RefreshButtonPressed);
        }
        assert(followups@ =~= command_completed(old(self)@, outcome).followups);
        followups
    }

    fn on_release_downloaded(
        &mut self,
        downloaded: Result<(), ()>,
        effects: &mut Vec<Effect>,
    ) -> (followups: Vec<Message>)
        ensures
            final(self)@ == release_downloaded(old(self)@, downloaded).state,
            followups@ == release_downloaded(old(self)@, downloaded).followups,
            final(effects).deep_view() == old(effects).deep_view() + release_downloaded(
                old(self)@,
                downloaded,
            ).effects,
    {
        let mut followups: Vec<Message> = Vec::new();
        match downloaded {
            Ok(_) => {
                emit(effects, Effect::ReplaceProcess);
            },
            Err(_) => {
                self.update_state.self_update.fail_update();
                followups.push(Message::AppsAction(AppsMessage::UpdateFailed));
            },
        }
        assert(followups@ =~= release_downloaded(old(self)@, downloaded).followups);
        assert(effects.deep_view() =~= old(effects).deep_view() + release_downloaded(
            old(self)@,
            downloaded,
        ).effects);
        followups
    }

    /// Takes one event and no more: changes the state, appends the
    /// requests to `effects`, and returns the events that it calls for.
    fn step(&mut self, msg: Message, effects: &mut Vec<Effect>) -> (followups: Vec<Message>)
        ensures
            final(self)@ == step_of(old(self)@, msg).state,
            followups@ == step_of(old(self)@, msg).followups,
            final(effects).deep_view() == old(effects).deep_view() + step_of(
                old(self)@,
                msg,
            ).effects,
    {
        let ghost before = effects.deep_view();
        proof {
            assert(before + Seq::<EffectView>::empty() =~= before);
        }
        match msg {
            Message::LoadDevices(list) => self.on_load_devices(list),
            Message::AppsPress => {
                self.view = Page::List;
                Vec::new()
            },
            Message::AboutPressed => {
                self.on_about_opened(effects);
                Vec::new()
            },
            Message::SettingsPressed => {
                self.view = Page::Settings;
                Vec::new()
            },
            Message::RefreshButtonPressed => self.on_refresh(effects),
            Message::RebootButtonPressed => {
                self.on_reboot(effects);
                Vec::new()
            },
            Message::AppsAction(msg) => {
                self.on_apps(msg, effects);
                Vec::new()
            },
            Message::SettingsAction(msg) => match msg {
                SettingsMessage::RestoringDevice(outcome) => self.on_completion(outcome),
                SettingsMessage::MultiUserMode(toggled) => {
                    self.on_multi_user(toggled, effects);
                    Vec::new()
                },
                other => {
                    self.on_settings(other, effects);
                    Vec::new()
                },
            },
            Message::AboutAction(msg) => self.on_about(msg, effects),
            Message::DeviceSelected(phone) => self.on_device_selected(phone),
            Message::NewReleaseDownloaded(downloaded) => self.on_release_downloaded(
                downloaded,
                effects,
            ),
            Message::GetLatestRelease(found) => {
                self.update_state.self_update.finish_check(found);
                Vec::new()
            },
            Message::Nothing => Vec::new(),
            Message::ADBSatisfied(satisfied) => {
                self.adb_satisfied = satisfied;
                let mut followups: Vec<Message> = Vec::new();
                followups.push(Message::AppsAction(AppsMessage::ADBSatisfied(satisfied)));
                assert(followups@ =~= step_of(old(self)@, msg).followups);
                followups
            },
        }
    }

    /// Takes one event, and every event that it calls for, before it
    /// returns. Returns the requests to the outside in the order in which
    /// they were made.
    pub fn update(state: &mut UadGui, msg: Message) -> (effects: Vec<Effect>)
        ensures
            final(state)@ == updated(old(state)@, msg).state,
            effects.deep_view() == updated(old(state)@, msg).effects,
    {
        let ghost wanted = updated(state@, msg);
        let mut effects: Vec<Effect> = Vec::new();
        let mut queue: VecDeque<Message> = VecDeque::new();
        queue.push_back(msg);
        proof {
            assert(queue@ =~= seq![msg]);
            assert(effects.deep_view() + run(state@, queue@).effects =~= wanted.effects);
        }
        while queue.len() > 0
            invariant
                wanted.state == run(state@, queue@).state,
                wanted.effects == effects.deep_view() + run(state@, queue@).effects,
            decreases queue_weight(queue@),
        {
            let ghost s = state@;
            let ghost q = queue@;
            let ghost made = effects.deep_view();
            let next = queue.pop_front().unwrap();
            let mut followups = state.step(next, &mut effects);
            let ghost taken = step_of(s, next);
            let ghost rest = queue@;
            proof {
                assert(rest =~= q.drop_first());
                lemma_followups_weigh_less(s, next);
                lemma_queue_weight_sum(taken.followups, rest);
                assert(made + (taken.effects + run(taken.state, taken.followups + rest).effects)
                    =~= (made + taken.effects) + run(taken.state, taken.followups + rest).effects);
            }
            // The events that were called for go to the front of the queue,
            // the last of them first, so that they stand there in their order.
            while followups.len() > 0
                invariant
                    followups@.len() <= taken.followups.len(),
                    followups@ == taken.followups.take(followups@.len() as int),
                    queue@ == taken.followups.skip(followups@.len() as int) + rest,
                decreases followups@.len(),
            {
                let ghost n = followups@.len() as int;
                let called = followups.pop().unwrap();
                queue.push_front(called);
                proof {
                    assert(called == taken.followups[n - 1]);
                    assert(followups@ =~= taken.followups.take(n - 1));
                    assert(queue@ =~= taken.followups.skip(n - 1) + rest);
                }
            }
            proof {
                assert(queue@ =~= taken.followups + rest);
            }
        }
        proof {
            assert(effects.deep_view() + Seq::<EffectView>::empty() =~= effects.deep_view());
        }
        effects
    }
}

/// What the window of the application is set up from.
pub struct GuiConfig;

impl GuiConfig {
    /// The name of the theme that the application is shown in.
    pub fn theme(state: &UadGui) -> (name: String)
        ensures
            name@ == state@.settings.general.theme,
    {
        state.settings_view.general.theme.clone()
    }
}

} // verus!
