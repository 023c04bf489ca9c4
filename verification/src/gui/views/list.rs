//! The package list: the packages of the selected device, one partition
//! per user, and what each of its events does to them. The packages are
//! those of one device: they come with a load for that device, and they go
//! when a new load starts or another device is selected.

use crate::batch::{CommandOutcome, CommandOutcomeView};
use crate::config::first_of;
use crate::device::{Phone, PhoneView, User};
use crate::effect::{emit, Effect, EffectView};
use crate::packages::{
    copy_partitions, partitions, reselect, reselected, PackageInfo, PackageRow, Selection,
};
use crate::release::UadListState;
use vstd::prelude::*;

verus! {

/// What the package list is waiting for.
#[derive(Debug, Clone, Copy, PartialEq, Eq, Structural)]
pub enum LoadingState {
    DownloadingList,
    FindingPhones,
    LoadingPackages,
    UpdatingUad,
    Ready,
    RestoringDevice,
    FailedToUpdate,
}

/// State of the package list.
#[derive(Debug, PartialEq, Eq)]
pub struct List {
    /// The identity of the device that the packages are those of; empty
    /// where none are held.
    pub device_id: String,
    pub phone_packages: Vec<Vec<PackageRow>>,
    pub selected_user: Option<User>,
    pub loading_state: LoadingState,
    pub is_adb_satisfied: bool,
}

/// What a [`List`] holds.
pub struct ListView {
    pub device_id: Seq<char>,
    pub phone_packages: Seq<Seq<PackageRow>>,
    pub selected_user: Option<User>,
    pub loading_state: LoadingState,
    pub is_adb_satisfied: bool,
}

impl DeepView for List {
    type V = ListView;

    open spec fn deep_view(&self) -> ListView {
        ListView {
            device_id: self.device_id@,
            phone_packages: partitions(&self.phone_packages),
            selected_user: self.selected_user,
            loading_state: self.loading_state,
            is_adb_satisfied: self.is_adb_satisfied,
        }
    }
}

impl View for List {
    type V = ListView;

    open spec fn view(&self) -> ListView {
        self.deep_view()
    }
}

/// An event of the package list.
#[derive(Debug, PartialEq, Eq)]
pub enum Message {
    /// Load the package descriptions, from the network where `true`.
    LoadUadList(bool),
    /// The package descriptions are there, or are not; drop the packages
    /// that are held and load those of the selected device.
    LoadPhonePackages(UadListState),
    /// The packages of a device have been loaded.
    PackagesLoaded { device_id: String, packages: Vec<Vec<PackageRow>> },
    /// Select or deselect every package of the user that is shown.
    ToggleAllSelected(bool),
    /// Deselect every package of every user.
    ClearSelectedPackages,
    /// Select or deselect one package.
    ToggleSelection(PackageInfo, bool),
    /// Show the packages of this user.
    UserSelected(User),
    /// One command of a restore has completed.
    RestoringDevice(CommandOutcome),
    ADBSatisfied(bool),
    UpdateFailed,
}

/// Two events of the package list say the same.
pub open spec fn alike(a: Message, b: Message) -> bool {
    match (a, b) {
        (Message::LoadUadList(x), Message::LoadUadList(y)) => x == y,
        (Message::LoadPhonePackages(x), Message::LoadPhonePackages(y)) => x == y,
        (
            Message::PackagesLoaded { device_id: d, packages: p },
            Message::PackagesLoaded { device_id: e, packages: q },
        ) => d@ == e@ && partitions(&p) == partitions(&q),
        (Message::ToggleAllSelected(x), Message::ToggleAllSelected(y)) => x == y,
        (Message::ClearSelectedPackages, Message::ClearSelectedPackages) => true,
        (Message::ToggleSelection(p, x), Message::ToggleSelection(q, y)) => p == q && x == y,
        (Message::UserSelected(x), Message::UserSelected(y)) => x == y,
        (Message::RestoringDevice(x), Message::RestoringDevice(y)) => x@ == y@,
        (Message::ADBSatisfied(x), Message::ADBSatisfied(y)) => x == y,
        (Message::UpdateFailed, Message::UpdateFailed) => true,
        _ => false,
    }
}

impl Clone for Message {
    fn clone(&self) -> (copy: Message)
        ensures
            alike(*self, copy),
    {
        match self {
            Message::LoadUadList(remote) => Message::LoadUadList(*remote),
            Message::LoadPhonePackages(state) => Message::LoadPhonePackages(*state),
            Message::PackagesLoaded { device_id, packages } => Message::PackagesLoaded {
                device_id: device_id.clone(),
                packages: copy_partitions(packages),
            },
            Message::ToggleAllSelected(value) => Message::ToggleAllSelected(*value),
            Message::ClearSelectedPackages => Message::ClearSelectedPackages,
            Message::ToggleSelection(package, value) => Message::ToggleSelection(*package, *value),
            Message::UserSelected(user) => Message::UserSelected(*user),
            Message::RestoringDevice(outcome) => Message::RestoringDevice(outcome.clone()),
            Message::ADBSatisfied(satisfied) => Message::ADBSatisfied(*satisfied),
            Message::UpdateFailed => Message::UpdateFailed,
        }
    }
}

/// Events that say the same lead to the same.
pub proof fn lemma_alike_events_step_alike(
    l: ListView,
    phone: PhoneView,
    uad_list: UadListState,
    a: Message,
    b: Message,
)
    requires
        alike(a, b),
    ensures
        list_step(l, phone, uad_list, a) == list_step(l, phone, uad_list, b),
{
}

/// What an event of the package list leads to.
pub struct ListStep {
    pub list: ListView,
    pub uad_list: UadListState,
    pub effects: Seq<EffectView>,
}

/// The package list before any device is known.
pub open spec fn empty_list() -> ListView {
    ListView {
        device_id: Seq::empty(),
        phone_packages: Seq::empty(),
        selected_user: None,
        loading_state: LoadingState::FindingPhones,
        is_adb_satisfied: false,
    }
}

/// The list with its packages discarded.
pub open spec fn discarded(l: ListView) -> ListView {
    ListView {
        device_id: Seq::empty(),
        phone_packages: Seq::empty(),
        selected_user: None,
        loading_state: l.loading_state,
        is_adb_satisfied: l.is_adb_satisfied,
    }
}

/// The list with `state` as what it is waiting for.
pub open spec fn waiting_for(l: ListView, state: LoadingState) -> ListView {
    ListView { loading_state: state, ..l }
}

/// The partition that is shown: that of the selected user, and the first
/// one where no user is selected.
pub open spec fn shown_partition(l: ListView) -> usize {
    match l.selected_user {
        Some(user) => user.index,
        None => 0,
    }
}

/// The list after a command has completed: it shows that a restore is
/// under way, unless the command went to another device than `phone`.
pub open spec fn completion_shown(
    l: ListView,
    phone: PhoneView,
    outcome: CommandOutcomeView,
) -> ListView {
    if outcome.device_id == phone.adb_id {
        waiting_for(l, LoadingState::RestoringDevice)
    } else {
        l
    }
}

/// A step of the package list that asks nothing of the outside.
pub open spec fn settled(list: ListView, uad_list: UadListState) -> ListStep {
    ListStep { list, uad_list, effects: Seq::empty() }
}

/// What an event does to the package list, given the selected device (or
/// the device that stands for none) and the state of the package
/// descriptions.
pub open spec fn list_step(
    l: ListView,
    phone: PhoneView,
    uad_list: UadListState,
    msg: Message,
) -> ListStep {
    match msg {
        Message::LoadUadList(remote) => ListStep {
            list: waiting_for(l, LoadingState::DownloadingList),
            uad_list,
            effects: seq![EffectView::LoadUadList { remote }],
        },
        Message::LoadPhonePackages(list_state) => if phone.adb_id.len() > 0 {
            ListStep {
                list: waiting_for(discarded(l), LoadingState::LoadingPackages),
                uad_list: list_state,
                effects: seq![EffectView::LoadPackages { device_id: phone.adb_id }],
            }
        } else {
            settled(waiting_for(discarded(l), LoadingState::FindingPhones), list_state)
        },
        Message::PackagesLoaded { device_id, packages } => if device_id@ == phone.adb_id
            && phone.adb_id.len() > 0 {
            settled(
                ListView {
                    device_id: device_id@,
                    phone_packages: partitions(&packages),
                    selected_user: first_of(phone.user_list),
                    loading_state: LoadingState::Ready,
                    is_adb_satisfied: l.is_adb_satisfied,
                },
                uad_list,
            )
        } else {
            settled(l, uad_list)
        },
        Message::ToggleAllSelected(value) => settled(
            ListView {
                phone_packages: reselected(
                    l.phone_packages,
                    Selection::Partition(shown_partition(l), value),
                ),
                ..l
            },
            uad_list,
        ),
        Message::ClearSelectedPackages => settled(
            ListView {
                phone_packages: reselected(l.phone_packages, Selection::Everywhere(false)),
                ..l
            },
            uad_list,
        ),
        Message::ToggleSelection(package, value) => settled(
            ListView {
                phone_packages: reselected(l.phone_packages, Selection::Package(package, value)),
                ..l
            },
            uad_list,
        ),
        Message::UserSelected(user) => settled(
            ListView { selected_user: Some(user), ..l },
            uad_list,
        ),
        Message::RestoringDevice(outcome) => settled(
            completion_shown(l, phone, outcome@),
            uad_list,
        ),
        Message::ADBSatisfied(satisfied) => settled(
            ListView { is_adb_satisfied: satisfied, ..l },
            uad_list,
        ),
        Message::UpdateFailed => settled(waiting_for(l, LoadingState::FailedToUpdate), uad_list),
    }
}

/// After any event the packages that are held are those that were held
/// before, or none, or those of `phone`.
pub proof fn lemma_packages_stay_with_their_device(
    l: ListView,
    phone: PhoneView,
    uad_list: UadListState,
    msg: Message,
)
    ensures
        ({
            let after = list_step(l, phone, uad_list, msg).list;
            ||| after.device_id == l.device_id && after.phone_packages.len()
                == l.phone_packages.len()
            ||| after.device_id.len() == 0 && after.phone_packages.len() == 0
            ||| after.device_id == phone.adb_id && phone.adb_id.len() > 0
        }),
{
}

impl Default for List {
    fn default() -> (list: List)
        ensures
            list@ == empty_list(),
    {
        let list = List {
            device_id: String::new(),
            phone_packages: Vec::new(),
            selected_user: None,
            loading_state: LoadingState::FindingPhones,
            is_adb_satisfied: false,
        };
        assert(list@.phone_packages =~= Seq::empty());
        list
    }
}

impl List {
    /// Discards the packages that are held.
    pub fn discard(&mut self)
        ensures
            final(self)@ == discarded(old(self)@),
    {
        self.device_id = String::new();
        self.phone_packages = Vec::new();
        self.selected_user = None;
        assert(self@.phone_packages =~= Seq::empty());
    }

    /// Shows that a command of a restore has completed.
    pub fn show_completion(&mut self, phone: &Phone, outcome: &CommandOutcome)
        ensures
            final(self)@ == completion_shown(old(self)@, phone@, outcome@),
    {
        if outcome.device_id == phone.adb_id {
            self.loading_state = LoadingState::RestoringDevice;
        }
    }

    /// Takes one event of the package list. `phone` is the selected
    /// device, or the device that stands for none; `uad_list` is the state
    /// of the package descriptions. Returns the requests to carry out.
    pub fn update(&mut self, phone: &Phone, uad_list: &mut UadListState, msg: Message) -> (effects:
        Vec<Effect>)
        ensures
            list_step(old(self)@, phone@, *old(uad_list), msg) == (ListStep {
                list: final(self)@,
                uad_list: *final(uad_list),
                effects: effects.deep_view(),
            }),
    {
        let mut effects: Vec<Effect> = Vec::new();
        assert(effects.deep_view() =~= Seq::empty());
        match msg {
            Message::LoadUadList(remote) => {
                self.loading_state = LoadingState::DownloadingList;
                emit(&mut effects, Effect::LoadUadList { remote });
                assert(effects.deep_view() =~= seq![EffectView::LoadUadList { remote }]);
            },
            Message::LoadPhonePackages(list_state) => {
                *uad_list = list_state;
                self.discard();
                if phone.adb_id.as_str().is_empty() {
                    self.loading_state = LoadingState::FindingPhones;
                } else {
                    self.loading_state = LoadingState::LoadingPackages;
                    let request = Effect::LoadPackages { device_id: phone.adb_id.clone() };
                    emit(&mut effects, request);
                    assert(effects.deep_view() =~= seq![request@]);
                }
            },
            Message::PackagesLoaded { device_id, packages } => {
                if device_id == phone.adb_id && !phone.adb_id.as_str().is_empty() {
                    self.device_id = device_id;
                    self.phone_packages = packages;
                    self.selected_user = if phone.user_list.len() > 0 {
                        Some(phone.user_list[0])
                    } else {
                        None
                    };
                    self.loading_state = LoadingState::Ready;
                }
            },
            Message::ToggleAllSelected(value) => {
                let shown = match self.selected_user {
                    Some(user) => user.index,
                    None => 0,
                };
                self.phone_packages = reselect(
                    &self.phone_packages,
                    Selection::Partition(shown, value),
                );
            },
            Message::ClearSelectedPackages => {
                self.phone_packages = reselect(&self.phone_packages, Selection::Everywhere(false));
            },
            Message::ToggleSelection(package, value) => {
                self.phone_packages = reselect(
                    &self.phone_packages,
                    Selection::Package(package, value),
                );
            },
            Message::UserSelected(user) => {
                self.selected_user = Some(user);
            },
            Message::RestoringDevice(outcome) => {
                self.show_completion(phone, &outcome);
            },
            Message::ADBSatisfied(satisfied) => {
                self.is_adb_satisfied = satisfied;
            },
            Message::UpdateFailed => {
                self.loading_state = LoadingState::FailedToUpdate;
            },
        }
        effects
    }
}

} // verus!
