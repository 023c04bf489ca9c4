//! What holds of the loop over whole runs of events: of a batch from its
//! start to its last completion, of a refresh of the devices, of a switch
//! to multi-user mode, and of the state between any two events.

use crate::batch::{
    batch_commands, completed, completed_all, drain_count, drains, lemma_counter_after_completions,
    lemma_drains_at_most_once, lemma_failure_is_recorded, opened, submit_requests, CommandOutcome,
    CommandOutcomeView, PackageRestore,
};
use crate::config::{lemma_loaded_identity, RestoreReportView};
use crate::device::{known, reconciled, Phone};
use crate::effect::EffectView;
use crate::gui::views::about::Message as AboutMessage;
use crate::gui::views::list::Message as AppsMessage;
use crate::gui::views::settings::{listing_request, reloaded, Message as SettingsMessage};
use crate::gui::{
    alike, apps_stepped, concerns_selected, current_phone, initial_state,
    lemma_followups_weigh_less, lemma_queue_weight_sum, multi_user_switched_on, queue_weight, run,
    settings_stepped, step_of, updated, GuiView, Message, Outcome,
};
use crate::packages::{has_owner, propagated};
use crate::release::{lemma_self_update_moves, may_follow, Release};
use vstd::prelude::*;

verus! {

/// The events of `events` taken one after the other, each with all that it
/// calls for before the next is looked at.
pub open spec fn replayed(s: GuiView, events: Seq<Message>) -> Outcome
    decreases events.len(),
{
    if events.len() == 0 {
        Outcome { state: s, effects: Seq::empty() }
    } else {
        let first = updated(s, events[0]);
        let rest = replayed(first.state, events.drop_first());
        Outcome { state: rest.state, effects: first.effects + rest.effects }
    }
}

/// How often `effects` asks for the devices to be enumerated.
pub open spec fn refreshes(effects: Seq<EffectView>) -> nat
    decreases effects.len(),
{
    if effects.len() == 0 {
        0
    } else {
        let before = refreshes(effects.drop_first());
        if effects[0] == EffectView::FetchDevices {
            before + 1
        } else {
            before
        }
    }
}

/// The event that reports the completion of a command.
pub open spec fn completion(outcome: CommandOutcome) -> Message {
    Message::SettingsAction(SettingsMessage::RestoringDevice(outcome))
}

/// The events that report these completions, in their order.
pub open spec fn completions(outcomes: Seq<CommandOutcome>) -> Seq<Message> {
    outcomes.map_values(|outcome: CommandOutcome| completion(outcome))
}

/// What these outcomes hold.
pub open spec fn outcome_views(outcomes: Seq<CommandOutcome>) -> Seq<CommandOutcomeView> {
    outcomes.map_values(|outcome: CommandOutcome| outcome@)
}

/// The requests of two runs in a row ask for the devices as often as both
/// runs together.
pub proof fn lemma_refreshes_sum(front: Seq<EffectView>, back: Seq<EffectView>)
    ensures
        refreshes(front + back) == refreshes(front) + refreshes(back),
    decreases front.len(),
{
    if front.len() == 0 {
        assert(front + back =~= back);
    } else {
        assert((front + back).drop_first() =~= front.drop_first() + back);
        lemma_refreshes_sum(front.drop_first(), back);
    }
}

/// One event in the queue: its own step, then the events that it calls
/// for.
pub proof fn lemma_run_one(s: GuiView, msg: Message)
    ensures
        updated(s, msg) == (Outcome {
            state: run(step_of(s, msg).state, step_of(s, msg).followups).state,
            effects: step_of(s, msg).effects + run(
                step_of(s, msg).state,
                step_of(s, msg).followups,
            ).effects,
        }),
{
    let taken = step_of(s, msg);
    assert(seq![msg].drop_first() =~= Seq::<Message>::empty());
    assert(taken.followups + seq![msg].drop_first() =~= taken.followups);
}

/// An event that calls for nothing leads to what its own step leads to.
pub proof fn lemma_run_alone(s: GuiView, msg: Message)
    requires
        step_of(s, msg).followups.len() == 0,
    ensures
        updated(s, msg) == (Outcome {
            state: step_of(s, msg).state,
            effects: step_of(s, msg).effects,
        }),
{
    lemma_run_one(s, msg);
    let taken = step_of(s, msg);
    assert(taken.effects + Seq::<EffectView>::empty() =~= taken.effects);
}

/// Events that say the same take the same step.
pub proof fn lemma_alike_events_step_alike(s: GuiView, a: Message, b: Message)
    requires
        alike(a, b),
    ensures
        step_of(s, a) == step_of(s, b),
{
    match a {
        Message::AppsAction(x) => {
            let y = b->AppsAction_0;
            crate::gui::views::list::lemma_alike_events_step_alike(
                s.apps,
                current_phone(s),
                s.update.uad_list,
                x,
                y,
            );
            assert(apps_stepped(s, x) == apps_stepped(s, y));
        },
        Message::SettingsAction(x) => {
            let y = b->SettingsAction_0;
            crate::gui::views::settings::lemma_alike_events_step_alike(
                s.settings,
                current_phone(s),
                s.batch,
                x,
                y,
            );
            match x {
                SettingsMessage::RestoringDevice(outcome) => {
                    assert(y is RestoringDevice);
                },
                SettingsMessage::MultiUserMode(toggled) => {
                    assert(y is MultiUserMode);
                },
                _ => {
                    assert(!(y is RestoringDevice) && !(y is MultiUserMode));
                    assert(settings_stepped(s, x) == settings_stepped(s, y));
                },
            }
        },
        _ => {},
    }
}

/// Events that say the same lead to the same: a copy of an event does what
/// the event does.
pub proof fn lemma_alike_events_update_alike(s: GuiView, a: Message, b: Message)
    requires
        alike(a, b),
    ensures
        updated(s, a) == updated(s, b),
{
    lemma_run_one(s, a);
    lemma_run_one(s, b);
    lemma_alike_events_step_alike(s, a, b);
}

/// A refresh drops the packages, asks once for the devices, and leaves the
/// batch, the settings and the selection as they are.
pub proof fn lemma_refresh(s: GuiView)
    ensures
        updated(s, Message::RefreshButtonPressed).effects == seq![EffectView::FetchDevices],
        updated(s, Message::RefreshButtonPressed).state.batch == s.batch,
        updated(s, Message::RefreshButtonPressed).state.settings == s.settings,
        updated(s, Message::RefreshButtonPressed).state.selected == s.selected,
        updated(s, Message::RefreshButtonPressed).state.devices == s.devices,
        updated(s, Message::RefreshButtonPressed).state.apps.phone_packages.len() == 0,
{
    let msg = Message::RefreshButtonPressed;
    lemma_run_one(s, msg);
    let taken = step_of(s, msg);
    let told = Message::AppsAction(AppsMessage::ADBSatisfied(s.adb_satisfied));
    assert(taken.followups =~= seq![told]);
    lemma_run_alone(taken.state, told);
    assert(taken.effects + Seq::<EffectView>::empty() =~= taken.effects);
}

/// The completion of a command takes the counter of the batch down by
/// one, whatever came of the command, and keeps a failure. It asks for the
/// devices exactly when it drains the batch, and then once. The settings,
/// the selection and the list of devices stay as they are.
pub proof fn lemma_completion(s: GuiView, outcome: CommandOutcome)
    ensures
        updated(s, completion(outcome)).state.batch == completed(s.batch, outcome@),
        updated(s, completion(outcome)).effects == if drains(s.batch) {
            seq![EffectView::FetchDevices]
        } else {
            Seq::<EffectView>::empty()
        },
        updated(s, completion(outcome)).state.settings == s.settings,
        updated(s, completion(outcome)).state.selected == s.selected,
        updated(s, completion(outcome)).state.devices == s.devices,
{
    let msg = completion(outcome);
    let taken = step_of(s, msg);
    lemma_run_one(s, msg);
    if drains(s.batch) {
        assert(taken.followups =~= seq![Message::RefreshButtonPressed]);
        lemma_refresh(taken.state);
        assert(taken.effects + seq![EffectView::FetchDevices] =~= seq![EffectView::FetchDevices]);
    } else {
        lemma_run_alone(s, msg);
    }
}

/// The completion of a command for another device than the selected one
/// is counted and nothing else: but for the batch, the state stays as it is.
pub proof fn lemma_stale_completion_only_counts(s: GuiView, outcome: CommandOutcome)
    requires
        !concerns_selected(s, outcome),
        !drains(s.batch),
    ensures
        updated(s, completion(outcome)).state == (GuiView {
            batch: completed(s.batch, outcome@),
            ..s
        }),
        updated(s, completion(outcome)).effects.len() == 0,
{
    lemma_run_alone(s, completion(outcome));
}

/// Over any run of completions the batch goes the way of its counter: it
/// stands at what the completions leave of it, and the devices are asked
/// for as often as a completion drained it.
pub proof fn lemma_completions(s: GuiView, outcomes: Seq<CommandOutcome>)
    ensures
        replayed(s, completions(outcomes)).state.batch == completed_all(
            s.batch,
            outcome_views(outcomes),
        ),
        refreshes(replayed(s, completions(outcomes)).effects) == drain_count(
            s.batch,
            outcome_views(outcomes),
        ),
        replayed(s, completions(outcomes)).state.settings == s.settings,
        replayed(s, completions(outcomes)).state.selected == s.selected,
    decreases outcomes.len(),
{
    if outcomes.len() > 0 {
        let first = updated(s, completions(outcomes)[0]);
        assert(completions(outcomes)[0] == completion(outcomes[0]));
        lemma_completion(s, outcomes[0]);
        assert(completions(outcomes).drop_first() =~= completions(outcomes.drop_first()));
        assert(outcome_views(outcomes).drop_first() =~= outcome_views(outcomes.drop_first()));
        lemma_completions(first.state, outcomes.drop_first());
        lemma_refreshes_sum(
            first.effects,
            replayed(first.state, completions(outcomes.drop_first())).effects,
        );
        reveal_with_fuel(refreshes, 2);
    }
}

/// A batch of commands, after exactly as many completions as it has
/// commands, has nothing outstanding, and the refresh that follows a
/// drained batch has been asked for once, not more. The outcomes may be
/// any mix of success and failure, in any order.
pub proof fn lemma_batch_drains_once(s: GuiView, outcomes: Seq<CommandOutcome>)
    requires
        s.batch.outstanding >= 1,
        outcomes.len() == s.batch.outstanding,
    ensures
        replayed(s, completions(outcomes)).state.batch.outstanding == 0,
        refreshes(replayed(s, completions(outcomes)).effects) == 1,
{
    lemma_completions(s, outcomes);
    lemma_counter_after_completions(s.batch, outcome_views(outcomes));
    lemma_drains_at_most_once(s.batch, outcome_views(outcomes));
}

/// While commands of the batch are outstanding no refresh is asked for,
/// and completions that come when nothing is outstanding ask for none
/// either: however many completions come, the refresh is asked for at most
/// once, and the counter never goes below zero.
pub proof fn lemma_batch_never_drains_twice(s: GuiView, outcomes: Seq<CommandOutcome>)
    ensures
        refreshes(replayed(s, completions(outcomes)).effects) <= 1,
        outcomes.len() < s.batch.outstanding ==> refreshes(
            replayed(s, completions(outcomes)).effects,
        ) == 0,
        s.batch.outstanding == 0 ==> refreshes(replayed(s, completions(outcomes)).effects) == 0,
        replayed(s, completions(outcomes)).state.batch.outstanding == if outcomes.len()
            <= s.batch.outstanding {
            s.batch.outstanding - outcomes.len()
        } else {
            0
        },
{
    lemma_completions(s, outcomes);
    lemma_counter_after_completions(s.batch, outcome_views(outcomes));
    lemma_drains_at_most_once(s.batch, outcome_views(outcomes));
}

/// Where a command of the batch failed and the commands that completed
/// after it did not, its failure is on record when the batch has drained.
pub proof fn lemma_batch_keeps_failure(s: GuiView, outcomes: Seq<CommandOutcome>, k: int)
    requires
        outcomes.len() <= s.batch.outstanding,
        0 <= k < outcomes.len(),
        outcomes[k].error is Some,
        forall|j: int| k < j < outcomes.len() ==> (#[trigger] outcomes[j]).error is None,
    ensures
        replayed(s, completions(outcomes)).state.batch.last_error == crate::batch::failure_of(
            outcomes[k]@,
        ),
{
    lemma_completions(s, outcomes);
    let views = outcome_views(outcomes);
    assert(views[k] == outcomes[k]@);
    assert forall|j: int| k < j < views.len() implies (#[trigger] views[j]).error is None by {
        assert(views[j] == outcomes[j]@);
        assert(outcomes[j].error is None);
    }
    lemma_failure_is_recorded(s.batch, views, k);
}

/// The event that hands in the commands of a restore.
pub open spec fn restore_planned(device_id: String, plan: Vec<PackageRestore>) -> Message {
    Message::SettingsAction(SettingsMessage::RestorePlanned { device_id, plan: Ok(plan) })
}

/// The commands of a restore for the selected device start a batch: the
/// counter stands at their number, and each of them is submitted, in
/// order. A restore without commands starts nothing and says so.
pub proof fn lemma_restore_starts_batch(s: GuiView, device_id: String, plan: Vec<PackageRestore>)
    requires
        device_id@ == current_phone(s).adb_id,
    ensures
        ({
            let commands = batch_commands(device_id@, plan.deep_view());
            let after = updated(s, restore_planned(device_id, plan));
            &&& after.state.batch == opened(commands.len())
            &&& after.effects == submit_requests(commands)
            &&& after.effects.len() == commands.len()
            &&& commands.len() == 0 <==> after.state.settings.device.backup.backup_state
                == RestoreReportView::AlreadyRestored
            &&& commands.len() > 0 <==> after.state.settings.device.backup.backup_state
                == RestoreReportView::Nothing
        }),
{
    lemma_run_alone(s, restore_planned(device_id, plan));
}

/// A request to restore with a device but no backup selected submits
/// nothing, leaves the batch alone, and says that no backup is selected:
/// an answer that a restore without commands never gives.
pub proof fn lemma_restore_without_backup(s: GuiView)
    requires
        current_phone(s).adb_id.len() > 0,
        s.settings.device.backup.selected is None,
    ensures
        ({
            let after = updated(s, Message::SettingsAction(SettingsMessage::RestoreDevice));
            &&& after.effects.len() == 0
            &&& after.state.batch == s.batch
            &&& after.state.settings.device.backup.backup_state
                == RestoreReportView::NoBackupSelected
        }),
{
    lemma_run_alone(s, Message::SettingsAction(SettingsMessage::RestoreDevice));
}

/// The commands of a restore that come for another device than the
/// selected one are dropped: nothing is submitted and nothing changes.
pub proof fn lemma_stale_restore_is_dropped(
    s: GuiView,
    device_id: String,
    plan: Vec<PackageRestore>,
)
    requires
        device_id@ != current_phone(s).adb_id,
    ensures
        updated(s, restore_planned(device_id, plan)).state == s,
        updated(s, restore_planned(device_id, plan)).effects.len() == 0,
{
    lemma_run_alone(s, restore_planned(device_id, plan));
}

/// A restore from its commands to its last completion: once as many
/// commands have completed as the restore has, whatever came of each,
/// nothing is outstanding and the refresh has been asked for once.
pub proof fn lemma_restore_runs_to_refresh(
    s: GuiView,
    device_id: String,
    plan: Vec<PackageRestore>,
    outcomes: Seq<CommandOutcome>,
)
    requires
        device_id@ == current_phone(s).adb_id,
        batch_commands(device_id@, plan.deep_view()).len() >= 1,
        outcomes.len() == batch_commands(device_id@, plan.deep_view()).len(),
    ensures
        ({
            let started = updated(s, restore_planned(device_id, plan));
            let ended = replayed(started.state, completions(outcomes));
            &&& ended.state.batch.outstanding == 0
            &&& refreshes(started.effects) == 0
            &&& refreshes(ended.effects) == 1
        }),
{
    lemma_restore_starts_batch(s, device_id, plan);
    let started = updated(s, restore_planned(device_id, plan));
    lemma_batch_drains_once(started.state, outcomes);
    lemma_submissions_are_no_refresh(batch_commands(device_id@, plan.deep_view()));
}

/// Submitting commands asks for no refresh.
pub proof fn lemma_submissions_are_no_refresh(commands: Seq<crate::effect::CommandView>)
    ensures
        refreshes(submit_requests(commands)) == 0,
    decreases commands.len(),
{
    if commands.len() > 0 {
        assert(submit_requests(commands).drop_first() =~= submit_requests(commands.drop_first()));
        lemma_submissions_are_no_refresh(commands.drop_first());
    }
}

/// The event that hands in a refreshed list of devices.
pub open spec fn devices_refreshed(list: Vec<Phone>) -> Message {
    Message::LoadDevices(list)
}

/// A refreshed list of devices never passes in silence: the selection is
/// reconciled with it, the device that it came to gets its settings, its
/// backups are asked for, and the package descriptions are loaded.
pub proof fn lemma_devices_refreshed(s: GuiView, list: Vec<Phone>)
    ensures
        ({
            let after = updated(s, devices_refreshed(list));
            let selected = reconciled(s.selected, list.deep_view());
            &&& after.state.selected == selected
            &&& after.state.devices == list.deep_view()
            &&& after.state.settings == reloaded(s.settings, current_phone(after.state))
            &&& after.state.batch == s.batch
            &&& after.effects == listing_request(current_phone(after.state)) + seq![
                EffectView::LoadUadList { remote: true },
            ]
        }),
{
    let msg = devices_refreshed(list);
    lemma_run_one(s, msg);
    let taken = step_of(s, msg);
    let load = Message::SettingsAction(SettingsMessage::LoadDeviceSettings);
    let describe = Message::AppsAction(AppsMessage::LoadUadList(true));
    assert(taken.followups =~= seq![load, describe]);
    let second = step_of(taken.state, load);
    assert(seq![load, describe].drop_first() =~= seq![describe]);
    assert(second.followups + seq![describe] =~= seq![describe]);
    lemma_run_alone(second.state, describe);
    let third = step_of(second.state, describe);
    assert(taken.effects + (second.effects + third.effects) =~= listing_request(
        current_phone(third.state),
    ) + seq![EffectView::LoadUadList { remote: true }]);
}

/// A selected device that the refreshed list does not hold gives way to
/// the first device of the list, and to no selection where the list is
/// empty.
pub proof fn lemma_missing_device_gives_way(s: GuiView, list: Vec<Phone>)
    requires
        s.selected is Some,
        !known(list.deep_view(), s.selected->0.adb_id),
    ensures
        list@.len() == 0 ==> updated(s, devices_refreshed(list)).state.selected is None,
        list@.len() > 0 ==> updated(s, devices_refreshed(list)).state.selected == Some(list@[0]@),
{
    lemma_devices_refreshed(s, list);
}

/// The settings that are shown are those of the device that is selected.
pub open spec fn settings_follow_selection(s: GuiView) -> bool {
    s.selected is Some ==> s.settings.device.device_id == s.selected->0.adb_id
}

/// An event that selects no device of its own accord.
pub open spec fn keeps_selection(msg: Message) -> bool {
    !(msg is DeviceSelected) && !(msg is LoadDevices)
}

/// The event that gives the selected device its settings.
pub open spec fn load_settings() -> Message {
    Message::SettingsAction(SettingsMessage::LoadDeviceSettings)
}

/// Loading the settings makes them those of the selected device, whatever
/// they were before.
pub proof fn lemma_load_settings_follows_selection(s: GuiView)
    ensures
        settings_follow_selection(step_of(s, load_settings()).state),
        step_of(s, load_settings()).followups.len() == 0,
{
    lemma_loaded_identity(s.settings.stored, current_phone(s));
}

/// One step of an event that selects no device keeps the settings with the
/// selection, and calls only for events that select no device either.
pub proof fn lemma_step_keeps_settings_with_selection(s: GuiView, msg: Message)
    requires
        settings_follow_selection(s),
        keeps_selection(msg),
    ensures
        settings_follow_selection(step_of(s, msg).state),
        forall|k: int|
            0 <= k < step_of(s, msg).followups.len() ==> keeps_selection(
                #[trigger] step_of(s, msg).followups[k],
            ),
{
    lemma_loaded_identity(s.settings.stored, current_phone(s));
    match msg {
        Message::SettingsAction(SettingsMessage::FolderChosen(Ok(folder))) => {
            let kept = step_of(s, msg).state.settings.stored;
            lemma_loaded_identity(kept, current_phone(s));
        },
        _ => {},
    }
}

/// The first step of any event calls for the settings to be loaded before
/// anything else, where it changes the selection, and only for events that
/// select no device.
pub proof fn lemma_selection_calls_for_settings(s: GuiView, msg: Message)
    requires
        !keeps_selection(msg),
    ensures
        step_of(s, msg).followups.len() > 0,
        step_of(s, msg).followups[0] == load_settings(),
        forall|k: int|
            0 <= k < step_of(s, msg).followups.len() ==> keeps_selection(
                #[trigger] step_of(s, msg).followups[k],
            ),
{
}

/// A queue of events that select no device leaves the settings with the
/// selection, where they were with it before or where the queue starts by
/// loading them.
pub proof fn lemma_run_keeps_settings_with_selection(s: GuiView, queue: Seq<Message>)
    requires
        forall|k: int| 0 <= k < queue.len() ==> keeps_selection(#[trigger] queue[k]),
        settings_follow_selection(s) || (queue.len() > 0 && queue[0] == load_settings()),
    ensures
        settings_follow_selection(run(s, queue).state),
    decreases queue_weight(queue),
{
    if queue.len() > 0 {
        let taken = step_of(s, queue[0]);
        let rest = taken.followups + queue.drop_first();
        if settings_follow_selection(s) {
            lemma_step_keeps_settings_with_selection(s, queue[0]);
        } else {
            lemma_load_settings_follows_selection(s);
        }
        assert forall|k: int| 0 <= k < rest.len() implies keeps_selection(#[trigger] rest[k]) by {
            if k < taken.followups.len() {
                assert(rest[k] == taken.followups[k]);
            } else {
                assert(rest[k] == queue[k - taken.followups.len() + 1]);
            }
        }
        lemma_followups_weigh_less(s, queue[0]);
        lemma_queue_weight_sum(taken.followups, queue.drop_first());
        lemma_run_keeps_settings_with_selection(taken.state, rest);
    }
}

/// At the start no device is selected, so the settings are with the
/// selection.
pub proof fn lemma_settings_follow_selection_at_start(config: crate::config::ConfigView)
    ensures
        settings_follow_selection(initial_state(config)),
{
}

/// Whatever event comes, once it and all that it calls for have been
/// taken, the settings that are shown are those of the device that is
/// selected: no event leaves the selection and the settings apart.
pub proof fn lemma_settings_always_follow_selection(s: GuiView, msg: Message)
    requires
        settings_follow_selection(s),
    ensures
        settings_follow_selection(updated(s, msg).state),
{
    if keeps_selection(msg) {
        lemma_run_keeps_settings_with_selection(s, seq![msg]);
    } else {
        lemma_run_one(s, msg);
        lemma_selection_calls_for_settings(s, msg);
        let taken = step_of(s, msg);
        lemma_run_keeps_settings_with_selection(taken.state, taken.followups);
    }
}

/// The packages that are held are those of the device that is selected:
/// packages are held for a device only, and then for the selected one.
pub open spec fn packages_follow_selection(s: GuiView) -> bool {
    &&& s.apps.phone_packages.len() > 0 ==> s.apps.device_id.len() > 0
    &&& s.apps.device_id.len() > 0 ==> s.selected is Some && s.selected->0.adb_id
        == s.apps.device_id
}

/// No step of any event parts the packages from the selection.
pub proof fn lemma_step_keeps_packages_with_selection(s: GuiView, msg: Message)
    requires
        packages_follow_selection(s),
    ensures
        packages_follow_selection(step_of(s, msg).state),
{
    match msg {
        Message::AppsAction(event) => {
            crate::gui::views::list::lemma_packages_stay_with_their_device(
                s.apps,
                current_phone(s),
                s.update.uad_list,
                event,
            );
        },
        Message::SettingsAction(event) => {
            match event {
                SettingsMessage::RestoringDevice(outcome) => {},
                SettingsMessage::MultiUserMode(toggled) => {
                    assert(step_of(s, msg).state.selected == s.selected);
                    assert(step_of(s, msg).state.apps.device_id == s.apps.device_id);
                    assert(step_of(s, msg).state.apps.phone_packages.len()
                        == s.apps.phone_packages.len());
                },
                _ => {
                    assert(step_of(s, msg).state.selected == s.selected);
                    assert(step_of(s, msg).state.apps == s.apps);
                },
            }
        },
        _ => {},
    }
}

/// No queue of events parts the packages from the selection.
pub proof fn lemma_run_keeps_packages_with_selection(s: GuiView, queue: Seq<Message>)
    requires
        packages_follow_selection(s),
    ensures
        packages_follow_selection(run(s, queue).state),
    decreases queue_weight(queue),
{
    if queue.len() > 0 {
        let taken = step_of(s, queue[0]);
        lemma_step_keeps_packages_with_selection(s, queue[0]);
        lemma_followups_weigh_less(s, queue[0]);
        lemma_queue_weight_sum(taken.followups, queue.drop_first());
        lemma_run_keeps_packages_with_selection(taken.state, taken.followups + queue.drop_first());
    }
}

/// At the start no packages are held.
pub proof fn lemma_packages_follow_selection_at_start(config: crate::config::ConfigView)
    ensures
        packages_follow_selection(initial_state(config)),
{
}

/// Whatever event comes, the packages that are held afterwards are those
/// of the device that is selected: packages are discarded when their
/// device is deselected, and come only with a load for the selected device.
pub proof fn lemma_packages_always_follow_selection(s: GuiView, msg: Message)
    requires
        packages_follow_selection(s),
    ensures
        packages_follow_selection(updated(s, msg).state),
{
    lemma_run_keeps_packages_with_selection(s, seq![msg]);
}

/// An event that leaves the self-update alone.
pub open spec fn leaves_self_update(msg: Message) -> bool {
    match msg {
        Message::AboutPressed => false,
        Message::GetLatestRelease(_) => false,
        Message::NewReleaseDownloaded(_) => false,
        Message::AboutAction(AboutMessage::DoSelfUpdate) => false,
        _ => true,
    }
}

/// No event calls for an event that touches the self-update, and an event
/// that leaves the self-update alone does so in its own step.
pub proof fn lemma_followups_leave_self_update(s: GuiView, msg: Message)
    ensures
        forall|k: int|
            0 <= k < step_of(s, msg).followups.len() ==> leaves_self_update(
                #[trigger] step_of(s, msg).followups[k],
            ),
        leaves_self_update(msg) ==> step_of(s, msg).state.update.self_update
            == s.update.self_update,
{
}

/// A queue of events that leave the self-update alone leaves it as it is.
pub proof fn lemma_run_leaves_self_update(s: GuiView, queue: Seq<Message>)
    requires
        forall|k: int| 0 <= k < queue.len() ==> leaves_self_update(#[trigger] queue[k]),
    ensures
        run(s, queue).state.update.self_update == s.update.self_update,
    decreases queue_weight(queue),
{
    if queue.len() > 0 {
        let taken = step_of(s, queue[0]);
        let rest = taken.followups + queue.drop_first();
        lemma_followups_leave_self_update(s, queue[0]);
        assert forall|k: int| 0 <= k < rest.len() implies leaves_self_update(
            #[trigger] rest[k],
        ) by {
            if k < taken.followups.len() {
                assert(rest[k] == taken.followups[k]);
            } else {
                assert(rest[k] == queue[k - taken.followups.len() + 1]);
            }
        }
        lemma_followups_weigh_less(s, queue[0]);
        lemma_queue_weight_sum(taken.followups, queue.drop_first());
        lemma_run_leaves_self_update(taken.state, rest);
    }
}

/// Over any event, with all that it calls for, the self-update stays where
/// it is or makes one of the moves that are allowed: from idle to checking,
/// from checking to done or failed, from done to updating, from updating to
/// failed, and from any state but updating to a fresh lookup.
pub proof fn lemma_self_update_moves_along(s: GuiView, msg: Message)
    ensures
        updated(s, msg).state.update.self_update.status == s.update.self_update.status
            || may_follow(
            s.update.self_update.status,
            updated(s, msg).state.update.self_update.status,
        ),
{
    lemma_run_one(s, msg);
    let taken = step_of(s, msg);
    lemma_followups_leave_self_update(s, msg);
    lemma_run_leaves_self_update(taken.state, taken.followups);
    let found: Result<Option<Release>, ()> = match msg {
        Message::GetLatestRelease(found) => found,
        _ => Err(()),
    };
    lemma_self_update_moves(s.update.self_update, found);
}

/// The event that toggles multi-user mode.
pub open spec fn multi_user_mode(toggled: bool) -> Message {
    Message::SettingsAction(SettingsMessage::MultiUserMode(toggled))
}

/// Multi-user mode spreads the selection when it goes from off to on with
/// a device selected, and at no other time: setting it again, or switching
/// it off, leaves the packages as they are.
pub proof fn lemma_multi_user_spreads_once(s: GuiView, toggled: bool)
    ensures
        updated(s, multi_user_mode(toggled)).state.apps.phone_packages == if multi_user_switched_on(
            s,
            toggled,
        ) {
            propagated(s.apps.phone_packages, s.selected->0.user_list)
        } else {
            s.apps.phone_packages
        },
        updated(s, multi_user_mode(toggled)).state.settings.device.multi_user_mode == toggled,
        updated(s, multi_user_mode(toggled)).effects == seq![EffectView::SaveConfig],
{
    lemma_run_alone(s, multi_user_mode(toggled));
}

/// Whatever multi-user mode is set to, the partition of a protected user of
/// the selected device stays as it is.
pub proof fn lemma_multi_user_spares_protected(s: GuiView, toggled: bool, p: int)
    requires
        s.selected is Some,
        0 <= p < s.apps.phone_packages.len(),
        has_owner(s.selected->0.user_list, p, true),
    ensures
        updated(s, multi_user_mode(toggled)).state.apps.phone_packages[p]
            == s.apps.phone_packages[p],
{
    lemma_multi_user_spreads_once(s, toggled);
    crate::packages::lemma_propagation_spares_protected(
        s.apps.phone_packages,
        s.selected->0.user_list,
        p,
    );
}

} // verus!
