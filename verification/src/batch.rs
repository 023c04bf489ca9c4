//! Batches of device commands: one counter per batch, set before anything
//! is dispatched and taken down by one for each command that completes.

use crate::config::{copy_name, copy_names};
use crate::effect::{emit, Command, CommandView, Effect, EffectView};
use crate::packages::PackageInfo;
use vstd::prelude::*;

verus! {

/// What came of one command.
#[derive(Debug, PartialEq, Eq)]
pub struct CommandOutcome {
    /// The device that the command was submitted to.
    pub device_id: String,
    /// The package that the command was bound to.
    pub package: PackageInfo,
    /// Why the command failed, where it did.
    pub error: Option<String>,
}

/// What a [`CommandOutcome`] holds.
pub struct CommandOutcomeView {
    pub device_id: Seq<char>,
    pub package: PackageInfo,
    pub error: Option<Seq<char>>,
}

impl DeepView for CommandOutcome {
    type V = CommandOutcomeView;

    open spec fn deep_view(&self) -> CommandOutcomeView {
        CommandOutcomeView {
            device_id: self.device_id@,
            package: self.package,
            error: self.error.deep_view(),
        }
    }
}

impl View for CommandOutcome {
    type V = CommandOutcomeView;

    open spec fn view(&self) -> CommandOutcomeView {
        self.deep_view()
    }
}

impl Clone for CommandOutcome {
    fn clone(&self) -> (copy: CommandOutcome)
        ensures
            copy@ == self@,
    {
        CommandOutcome {
            device_id: self.device_id.clone(),
            package: self.package,
            error: copy_name(&self.error),
        }
    }
}

/// A command that failed, kept for the user to see.
#[derive(Debug, PartialEq, Eq)]
pub struct CommandFailure {
    pub package: PackageInfo,
    pub reason: String,
}

/// What a [`CommandFailure`] holds.
pub struct CommandFailureView {
    pub package: PackageInfo,
    pub reason: Seq<char>,
}

impl DeepView for CommandFailure {
    type V = CommandFailureView;

    open spec fn deep_view(&self) -> CommandFailureView {
        CommandFailureView { package: self.package, reason: self.reason@ }
    }
}

impl View for CommandFailure {
    type V = CommandFailureView;

    open spec fn view(&self) -> CommandFailureView {
        self.deep_view()
    }
}

impl Clone for CommandFailure {
    fn clone(&self) -> (copy: CommandFailure)
        ensures
            copy@ == self@,
    {
        CommandFailure { package: self.package, reason: self.reason.clone() }
    }
}

/// The commands of a batch that have not completed yet, by their number,
/// and the last failure among those that have.
#[derive(Debug, PartialEq, Eq)]
pub struct Batch {
    pub outstanding: usize,
    pub last_error: Option<CommandFailure>,
}

/// What a [`Batch`] holds.
pub struct BatchView {
    pub outstanding: nat,
    pub last_error: Option<CommandFailureView>,
}

impl DeepView for Batch {
    type V = BatchView;

    open spec fn deep_view(&self) -> BatchView {
        BatchView { outstanding: self.outstanding as nat, last_error: self.last_error.deep_view() }
    }
}

impl View for Batch {
    type V = BatchView;

    open spec fn view(&self) -> BatchView {
        self.deep_view()
    }
}

impl Clone for Batch {
    fn clone(&self) -> (copy: Batch)
        ensures
            copy@ == self@,
    {
        Batch {
            outstanding: self.outstanding,
            last_error: match &self.last_error {
                Some(failure) => Some(failure.clone()),
                None => None,
            },
        }
    }
}

/// A batch of `count` commands, none of them completed.
pub open spec fn opened(count: nat) -> BatchView {
    BatchView { outstanding: count, last_error: None }
}

/// The failure that an outcome reports, if it reports one.
pub open spec fn failure_of(outcome: CommandOutcomeView) -> Option<CommandFailureView> {
    match outcome.error {
        Some(reason) => Some(CommandFailureView { package: outcome.package, reason }),
        None => None,
    }
}

/// The batch after one more command has completed. The counter goes down by
/// one whatever the outcome; a failure is kept. With nothing outstanding
/// the completion belongs to no batch, and nothing changes.
pub open spec fn completed(batch: BatchView, outcome: CommandOutcomeView) -> BatchView {
    if batch.outstanding == 0 {
        batch
    } else {
        BatchView {
            outstanding: (batch.outstanding - 1) as nat,
            last_error: if outcome.error is Some {
                failure_of(outcome)
            } else {
                batch.last_error
            },
        }
    }
}

/// The next completion is the one that drains the batch.
pub open spec fn drains(batch: BatchView) -> bool {
    batch.outstanding == 1
}

/// The batch after the commands of `outcomes` have completed in this order.
pub open spec fn completed_all(batch: BatchView, outcomes: Seq<CommandOutcomeView>) -> BatchView
    decreases outcomes.len(),
{
    if outcomes.len() == 0 {
        batch
    } else {
        completed_all(completed(batch, outcomes[0]), outcomes.drop_first())
    }
}

/// How many of the completions of `outcomes`, taken in this order, drain
/// the batch.
pub open spec fn drain_count(batch: BatchView, outcomes: Seq<CommandOutcomeView>) -> nat
    decreases outcomes.len(),
{
    if outcomes.len() == 0 {
        0
    } else {
        let rest = drain_count(completed(batch, outcomes[0]), outcomes.drop_first());
        if drains(batch) {
            rest + 1
        } else {
            rest
        }
    }
}

/// The commands that restore one package.
#[derive(Debug, PartialEq, Eq)]
pub struct PackageRestore {
    /// Position of the package in the partition of the first user.
    pub index: usize,
    /// The instructions that restore it, in the order to submit them.
    pub commands: Vec<String>,
}

/// What a [`PackageRestore`] holds.
pub struct PackageRestoreView {
    pub index: usize,
    pub commands: Seq<Seq<char>>,
}

impl DeepView for PackageRestore {
    type V = PackageRestoreView;

    open spec fn deep_view(&self) -> PackageRestoreView {
        PackageRestoreView { index: self.index, commands: self.commands.deep_view() }
    }
}

impl View for PackageRestore {
    type V = PackageRestoreView;

    open spec fn view(&self) -> PackageRestoreView {
        self.deep_view()
    }
}

impl Clone for PackageRestore {
    fn clone(&self) -> (copy: PackageRestore)
        ensures
            copy@ == self@,
    {
        PackageRestore { index: self.index, commands: copy_names(&self.commands) }
    }
}

/// A copy of the packages of a restore.
pub fn copy_plan(plan: &Vec<PackageRestore>) -> (copy: Vec<PackageRestore>)
    ensures
        copy.deep_view() == plan.deep_view(),
{
    let mut copy: Vec<PackageRestore> = Vec::new();
    let mut i: usize = 0;
    while i < plan.len()
        invariant
            i <= plan.len(),
            copy@.len() == i,
            forall|j: int| 0 <= j < i ==> (#[trigger] copy@[j])@ == plan@[j]@,
        decreases plan.len() - i,
    {
        copy.push(plan[i].clone());
        i += 1;
    }
    assert(copy.deep_view() =~= plan.deep_view());
    copy
}

/// The commands of one package of a restore, bound to the device.
pub open spec fn package_commands(device_id: Seq<char>, package: PackageRestoreView) -> Seq<
    CommandView,
> {
    Seq::new(
        package.commands.len(),
        |k: int|
            CommandView {
                device_id,
                package: PackageInfo { i_user: 0, index: package.index },
                instruction: package.commands[k],
            },
    )
}

/// The batch of a restore: the commands of all its packages as one flat
/// list, package after package.
pub open spec fn batch_commands(device_id: Seq<char>, plan: Seq<PackageRestoreView>) -> Seq<
    CommandView,
>
    decreases plan.len(),
{
    if plan.len() == 0 {
        Seq::empty()
    } else {
        batch_commands(device_id, plan.drop_last()) + package_commands(device_id, plan.last())
    }
}

/// Builds the batch of a restore.
pub fn flatten(device_id: &String, plan: &Vec<PackageRestore>) -> (commands: Vec<Command>)
    ensures
        commands.deep_view() == batch_commands(device_id@, plan.deep_view()),
{
    let mut commands: Vec<Command> = Vec::new();
    let mut p: usize = 0;
    assert(commands.deep_view() =~= batch_commands(device_id@, plan.deep_view().take(0)));
    while p < plan.len()
        invariant
            p <= plan.len(),
            commands.deep_view() == batch_commands(device_id@, plan.deep_view().take(p as int)),
        decreases plan.len() - p,
    {
        let package = &plan[p];
        let ghost done = commands.deep_view();
        let ghost wanted = package_commands(device_id@, package@);
        let mut k: usize = 0;
        assert(commands.deep_view() =~= done + wanted.take(0));
        while k < package.commands.len()
            invariant
                k <= package.commands.len(),
                wanted == package_commands(device_id@, package@),
                commands.deep_view() == done + wanted.take(k as int),
            decreases package.commands.len() - k,
        {
            let ghost before = commands.deep_view();
            let command = Command {
                device_id: device_id.clone(),
                package: PackageInfo { i_user: 0, index: package.index },
                instruction: package.commands[k].clone(),
            };
            assert(command@ == wanted[k as int]);
            commands.push(command);
            assert(commands.deep_view() =~= before.push(wanted[k as int]));
            assert(before.push(wanted[k as int]) =~= done + wanted.take(k + 1));
            k += 1;
        }
        proof {
            let next = plan.deep_view().take(p + 1);
            assert(wanted.take(k as int) =~= wanted);
            assert(next.drop_last() =~= plan.deep_view().take(p as int));
            assert(next.last() == package@);
        }
        p += 1;
    }
    assert(plan.deep_view().take(p as int) =~= plan.deep_view());
    commands
}

/// The requests that dispatch `commands`, one for each, in their order.
pub open spec fn submit_requests(commands: Seq<CommandView>) -> Seq<EffectView> {
    commands.map_values(|command: CommandView| EffectView::SubmitCommand(command))
}

impl Batch {
    /// A batch with nothing outstanding.
    pub fn new() -> (batch: Batch)
        ensures
            batch@ == opened(0),
    {
        Batch { outstanding: 0, last_error: None }
    }

    /// Starts a batch: sets the counter to the number of `commands`, drops
    /// what an earlier batch left, and only then appends one request for
    /// each command to `effects`. Returns the counter.
    pub fn submit_batch(
        &mut self,
        commands: Vec<Command>,
        effects: &mut Vec<Effect>,
    ) -> (outstanding: usize)
        ensures
            outstanding == commands@.len(),
            final(self)@ == opened(commands@.len()),
            final(effects).deep_view() == old(effects).deep_view() + submit_requests(
                commands.deep_view(),
            ),
    {
        let count = commands.len();
        self.outstanding = count;
        self.last_error = None;
        let ghost wanted = commands.deep_view();
        let ghost before = effects.deep_view();
        assert(effects.deep_view() =~= before + submit_requests(wanted).take(0));
        for command in pending: commands
            invariant
                pending.seq().len() == wanted.len(),
                forall|k: int|
                    0 <= k < wanted.len() ==> (#[trigger] pending.seq()[k])@ == wanted[k],
                effects.deep_view() == before + submit_requests(wanted).take(
                    pending.index() as int,
                ),
        {
            let ghost n = pending.index() as int;
            emit(effects, Effect::SubmitCommand(command));
            assert(effects.deep_view() =~= before + submit_requests(wanted).take(n + 1));
        }
        assert(submit_requests(wanted).take(wanted.len() as int) =~= submit_requests(wanted));
        count
    }

    /// Counts one completion. Tells whether it drained the batch: whether
    /// it took the counter from one to zero.
    pub fn complete(&mut self, outcome: CommandOutcome) -> (drained: bool)
        ensures
            final(self)@ == completed(old(self)@, outcome@),
            drained == drains(old(self)@),
    {
        if self.outstanding == 0 {
            return false;
        }
        self.outstanding = self.outstanding - 1;
        match outcome.error {
            Some(reason) => {
                self.last_error = Some(CommandFailure { package: outcome.package, reason });
            },
            None => {},
        }
        self.outstanding == 0
    }
}

/// After any completions the counter stands at what was outstanding less
/// their number, and at zero where they were more: it never goes below.
pub proof fn lemma_counter_after_completions(batch: BatchView, outcomes: Seq<CommandOutcomeView>)
    ensures
        completed_all(batch, outcomes).outstanding == if outcomes.len() <= batch.outstanding {
            batch.outstanding - outcomes.len()
        } else {
            0
        },
    decreases outcomes.len(),
{
    if outcomes.len() > 0 {
        lemma_counter_after_completions(completed(batch, outcomes[0]), outcomes.drop_first());
    }
}

/// A batch drains at most once, and it drains exactly when it had a
/// command outstanding and as many completions came as were outstanding.
pub proof fn lemma_drains_at_most_once(batch: BatchView, outcomes: Seq<CommandOutcomeView>)
    ensures
        drain_count(batch, outcomes) == if 1 <= batch.outstanding <= outcomes.len() {
            1nat
        } else {
            0nat
        },
    decreases outcomes.len(),
{
    if outcomes.len() > 0 {
        lemma_drains_at_most_once(completed(batch, outcomes[0]), outcomes.drop_first());
    }
}

/// A batch of `count` commands, after exactly `count` completions of any
/// outcome in any order, has nothing outstanding and has drained once.
pub proof fn lemma_batch_drains_exactly_once(count: nat, outcomes: Seq<CommandOutcomeView>)
    requires
        count >= 1,
        outcomes.len() == count,
    ensures
        completed_all(opened(count), outcomes).outstanding == 0,
        drain_count(opened(count), outcomes) == 1,
{
    lemma_counter_after_completions(opened(count), outcomes);
    lemma_drains_at_most_once(opened(count), outcomes);
}

/// Before the last of its completions a batch has not drained: with fewer
/// completions than commands the counter is above zero.
pub proof fn lemma_batch_holds_until_last(count: nat, outcomes: Seq<CommandOutcomeView>)
    requires
        outcomes.len() < count,
    ensures
        completed_all(opened(count), outcomes).outstanding > 0,
        drain_count(opened(count), outcomes) == 0,
{
    lemma_counter_after_completions(opened(count), outcomes);
    lemma_drains_at_most_once(opened(count), outcomes);
}

/// A failure stays on record until a later command of the batch fails: where
/// command `k` of a batch failed and those after it did not, the batch holds
/// the failure of `k` when all have completed.
pub proof fn lemma_failure_is_recorded(
    batch: BatchView,
    outcomes: Seq<CommandOutcomeView>,
    k: int,
)
    requires
        outcomes.len() <= batch.outstanding,
        0 <= k < outcomes.len(),
        outcomes[k].error is Some,
        forall|j: int| k < j < outcomes.len() ==> (#[trigger] outcomes[j]).error is None,
    ensures
        completed_all(batch, outcomes).last_error == failure_of(outcomes[k]),
    decreases outcomes.len(),
{
    let next = completed(batch, outcomes[0]);
    let rest = outcomes.drop_first();
    if k == 0 {
        assert(next.last_error == failure_of(outcomes[0]));
        lemma_successes_keep_record(next, rest);
    } else {
        assert forall|j: int| k - 1 < j < rest.len() implies (#[trigger] rest[j]).error is None by {
            assert(rest[j] == outcomes[j + 1]);
        }
        lemma_failure_is_recorded(next, rest, k - 1);
    }
}

/// Commands that succeed leave the record of failures as it is.
pub proof fn lemma_successes_keep_record(batch: BatchView, outcomes: Seq<CommandOutcomeView>)
    requires
        forall|j: int| 0 <= j < outcomes.len() ==> (#[trigger] outcomes[j]).error is None,
    ensures
        completed_all(batch, outcomes).last_error == batch.last_error,
    decreases outcomes.len(),
{
    if outcomes.len() > 0 {
        let rest = outcomes.drop_first();
        assert forall|j: int| 0 <= j < rest.len() implies (#[trigger] rest[j]).error is None by {
            assert(rest[j] == outcomes[j + 1]);
        }
        lemma_successes_keep_record(completed(batch, outcomes[0]), rest);
    }
}

} // verus!
