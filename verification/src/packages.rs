//! Package entries of a device, one partition per user, and the spreading
//! of a selection over the users of the device.

use crate::device::User;
use vstd::prelude::*;

verus! {

/// What became of a package on the device.
#[derive(Clone, Copy, Debug, PartialEq, Eq, Structural)]
pub enum PackageState {
    Enabled,
    Uninstalled,
    Disabled,
}

/// One package in the partition of one user.
#[derive(Clone, Copy, Debug, PartialEq, Eq, Structural)]
pub struct PackageRow {
    pub state: PackageState,
    pub selected: bool,
}

/// The package that a command is bound to: the partition of a user and the
/// position of the package in it.
#[derive(Clone, Copy, Debug, PartialEq, Eq, Structural)]
pub struct PackageInfo {
    pub i_user: usize,
    pub index: usize,
}

/// The partitions of a device, each as the sequence of its entries.
pub open spec fn partitions(packages: &Vec<Vec<PackageRow>>) -> Seq<Seq<PackageRow>> {
    Seq::new(packages@.len(), |p: int| packages@[p]@)
}

/// A copy of the partitions of a device.
pub fn copy_partitions(packages: &Vec<Vec<PackageRow>>) -> (copy: Vec<Vec<PackageRow>>)
    ensures
        partitions(&copy) == partitions(packages),
{
    let mut copy: Vec<Vec<PackageRow>> = Vec::new();
    let mut p: usize = 0;
    while p < packages.len()
        invariant
            p <= packages.len(),
            copy@.len() == p,
            forall|q: int| 0 <= q < p ==> (#[trigger] copy@[q])@ == packages@[q]@,
        decreases packages.len() - p,
    {
        let partition = &packages[p];
        let mut rows: Vec<PackageRow> = Vec::new();
        let mut i: usize = 0;
        while i < partition.len()
            invariant
                i <= partition.len(),
                rows@ == partition@.take(i as int),
            decreases partition.len() - i,
        {
            rows.push(partition[i]);
            i += 1;
        }
        assert(rows@ =~= partition@);
        copy.push(rows);
        p += 1;
    }
    assert(partitions(&copy) =~= partitions(packages));
    copy
}

/// Among the first `n` users, one whose partition is `p` and whose
/// protection is `protected`.
pub open spec fn has_owner_below(users: Seq<User>, p: int, protected: bool, n: int) -> bool {
    exists|k: int|
        0 <= k < n && (#[trigger] users[k]).index == p && users[k].protected == protected
}

/// Partition `p` belongs to a user whose protection is `protected`.
pub open spec fn has_owner(users: Seq<User>, p: int, protected: bool) -> bool {
    has_owner_below(users, p, protected, users.len() as int)
}

/// Partition `p` takes part in the spreading: a user that is not protected
/// owns it, and no protected user does.
pub open spec fn takes_part(users: Seq<User>, p: int) -> bool {
    has_owner(users, p, false) && !has_owner(users, p, true)
}

/// Among the first `n` partitions, one that takes part and has its package
/// `i` selected.
pub open spec fn selected_below(
    snapshot: Seq<Seq<PackageRow>>,
    users: Seq<User>,
    i: int,
    n: int,
) -> bool {
    exists|s: int|
        0 <= s < n && takes_part(users, s) && 0 <= i < (#[trigger] snapshot[s]).len()
            && snapshot[s][i].selected
}

/// Package `i` is selected in a partition that takes part.
pub open spec fn selected_somewhere(
    snapshot: Seq<Seq<PackageRow>>,
    users: Seq<User>,
    i: int,
) -> bool {
    selected_below(snapshot, users, i, snapshot.len() as int)
}

/// The entry at position `i` of partition `p` after the spreading.
pub open spec fn propagated_row(
    snapshot: Seq<Seq<PackageRow>>,
    users: Seq<User>,
    p: int,
    i: int,
) -> PackageRow {
    if takes_part(users, p) && selected_somewhere(snapshot, users, i) {
        PackageRow { state: snapshot[p][i].state, selected: true }
    } else {
        snapshot[p][i]
    }
}

/// The selection after it has spread: in every partition that takes part, a
/// package is selected where it was selected in any partition that takes
/// part. The other partitions stay as they were.
pub open spec fn propagated(snapshot: Seq<Seq<PackageRow>>, users: Seq<User>) -> Seq<
    Seq<PackageRow>,
> {
    Seq::new(
        snapshot.len(),
        |p: int| Seq::new(snapshot[p].len(), |i: int| propagated_row(snapshot, users, p, i)),
    )
}

/// Tells whether partition `p` takes part in the spreading.
pub fn partition_takes_part(users: &Vec<User>, p: usize) -> (taking: bool)
    ensures
        taking == takes_part(users@, p as int),
{
    let mut open_owner = false;
    let mut protected_owner = false;
    let mut k: usize = 0;
    while k < users.len()
        invariant
            k <= users.len(),
            open_owner == has_owner_below(users@, p as int, false, k as int),
            protected_owner == has_owner_below(users@, p as int, true, k as int),
        decreases users.len() - k,
    {
        let user = users[k];
        if user.index == p {
            if user.protected {
                protected_owner = true;
            } else {
                open_owner = true;
            }
        }
        assert(users@[k as int] == user);
        k += 1;
    }
    open_owner && !protected_owner
}

/// Tells whether package `i` is selected in a partition that takes part.
pub fn package_selected_somewhere(
    snapshot: &Vec<Vec<PackageRow>>,
    users: &Vec<User>,
    i: usize,
) -> (found: bool)
    ensures
        found == selected_somewhere(partitions(snapshot), users@, i as int),
{
    let mut found = false;
    let mut s: usize = 0;
    while s < snapshot.len()
        invariant
            s <= snapshot.len(),
            found == selected_below(partitions(snapshot), users@, i as int, s as int),
        decreases snapshot.len() - s,
    {
        let taking = partition_takes_part(users, s);
        if taking && i < snapshot[s].len() && snapshot[s][i].selected {
            found = true;
        }
        assert(partitions(snapshot)[s as int] == snapshot@[s as int]@);
        s += 1;
    }
    found
}

/// Spreads the selection over the users of a device: a package that is
/// selected in the partition of any user who is not protected becomes
/// selected in the partition of every such user. Partitions that a
/// protected user owns, and partitions that no user owns, are neither read
/// nor changed.
pub fn propagate(selection_snapshot: &Vec<Vec<PackageRow>>, user_list: &Vec<User>) -> (updated: Vec<
    Vec<PackageRow>,
>)
    ensures
        partitions(&updated) == propagated(partitions(selection_snapshot), user_list@),
{
    let ghost snapshot = partitions(selection_snapshot);
    let mut updated: Vec<Vec<PackageRow>> = Vec::new();
    let mut p: usize = 0;
    while p < selection_snapshot.len()
        invariant
            p <= selection_snapshot.len(),
            snapshot == partitions(selection_snapshot),
            updated@.len() == p,
            forall|q: int|
                0 <= q < p ==> (#[trigger] updated@[q])@ == propagated(snapshot, user_list@)[q],
        decreases selection_snapshot.len() - p,
    {
        let taking = partition_takes_part(user_list, p);
        let partition = &selection_snapshot[p];
        let mut rows: Vec<PackageRow> = Vec::new();
        let mut i: usize = 0;
        while i < partition.len()
            invariant
                i <= partition.len(),
                p < selection_snapshot.len(),
                snapshot == partitions(selection_snapshot),
                partition@ == snapshot[p as int],
                taking == takes_part(user_list@, p as int),
                rows@.len() == i,
                forall|j: int|
                    0 <= j < i ==> #[trigger] rows@[j] == propagated_row(
                        snapshot,
                        user_list@,
                        p as int,
                        j,
                    ),
            decreases partition.len() - i,
        {
            let row = partition[i];
            let wanted = taking && package_selected_somewhere(selection_snapshot, user_list, i);
            if wanted {
                rows.push(PackageRow { state: row.state, selected: true });
            } else {
                rows.push(row);
            }
            i += 1;
        }
        assert(rows@ =~= propagated(snapshot, user_list@)[p as int]);
        updated.push(rows);
        p += 1;
    }
    assert(partitions(&updated) =~= propagated(snapshot, user_list@));
    updated
}

/// A change of the selection made by hand.
#[derive(Clone, Copy, Debug, PartialEq, Eq, Structural)]
pub enum Selection {
    /// Every package of every partition.
    Everywhere(bool),
    /// Every package of the partition at this position.
    Partition(usize, bool),
    /// This one package.
    Package(PackageInfo, bool),
}

/// What `change` sets the selection of package `i` of partition `p` to;
/// `None` where it leaves that package alone.
pub open spec fn selection_at(change: Selection, p: int, i: int) -> Option<bool> {
    match change {
        Selection::Everywhere(value) => Some(value),
        Selection::Partition(q, value) => if q == p {
            Some(value)
        } else {
            None
        },
        Selection::Package(package, value) => if package.i_user == p && package.index == i {
            Some(value)
        } else {
            None
        },
    }
}

/// The entry at position `i` of partition `p` after `change`.
pub open spec fn reselected_row(
    snapshot: Seq<Seq<PackageRow>>,
    change: Selection,
    p: int,
    i: int,
) -> PackageRow {
    match selection_at(change, p, i) {
        Some(value) => PackageRow { state: snapshot[p][i].state, selected: value },
        None => snapshot[p][i],
    }
}

/// The partitions after `change`. A change that names a partition or a
/// package that is not there changes nothing.
pub open spec fn reselected(snapshot: Seq<Seq<PackageRow>>, change: Selection) -> Seq<
    Seq<PackageRow>,
> {
    Seq::new(
        snapshot.len(),
        |p: int| Seq::new(snapshot[p].len(), |i: int| reselected_row(snapshot, change, p, i)),
    )
}

/// Applies a change of the selection.
pub fn reselect(packages: &Vec<Vec<PackageRow>>, change: Selection) -> (updated: Vec<
    Vec<PackageRow>,
>)
    ensures
        partitions(&updated) == reselected(partitions(packages), change),
{
    let ghost snapshot = partitions(packages);
    let mut updated: Vec<Vec<PackageRow>> = Vec::new();
    let mut p: usize = 0;
    while p < packages.len()
        invariant
            p <= packages.len(),
            snapshot == partitions(packages),
            updated@.len() == p,
            forall|q: int|
                0 <= q < p ==> (#[trigger] updated@[q])@ == reselected(snapshot, change)[q],
        decreases packages.len() - p,
    {
        let partition = &packages[p];
        let mut rows: Vec<PackageRow> = Vec::new();
        let mut i: usize = 0;
        while i < partition.len()
            invariant
                i <= partition.len(),
                p < packages.len(),
                snapshot == partitions(packages),
                partition@ == snapshot[p as int],
                rows@.len() == i,
                forall|j: int|
                    0 <= j < i ==> #[trigger] rows@[j] == reselected_row(
                        snapshot,
                        change,
                        p as int,
                        j,
                    ),
            decreases partition.len() - i,
        {
            let row = partition[i];
            let value = match change {
                Selection::Everywhere(value) => Some(value),
                Selection::Partition(q, value) => if q == p {
                    Some(value)
                } else {
                    None
                },
                Selection::Package(package, value) => if package.i_user == p && package.index == i {
                    Some(value)
                } else {
                    None
                },
            };
            match value {
                Some(selected) => rows.push(PackageRow { state: row.state, selected }),
                None => rows.push(row),
            }
            i += 1;
        }
        assert(rows@ =~= reselected(snapshot, change)[p as int]);
        updated.push(rows);
        p += 1;
    }
    assert(partitions(&updated) =~= reselected(snapshot, change));
    updated
}

/// The spreading keeps every partition at its length and every package in
/// its state, and never takes a selection away.
pub proof fn lemma_propagation_keeps_shape(snapshot: Seq<Seq<PackageRow>>, users: Seq<User>)
    ensures
        propagated(snapshot, users).len() == snapshot.len(),
        forall|p: int|
            0 <= p < snapshot.len() ==> (#[trigger] propagated(snapshot, users)[p]).len()
                == snapshot[p].len(),
        forall|p: int, i: int|
            0 <= p < snapshot.len() && 0 <= i < snapshot[p].len() ==> {
                &&& (#[trigger] propagated(snapshot, users)[p][i]).state == snapshot[p][i].state
                &&& snapshot[p][i].selected ==> propagated(snapshot, users)[p][i].selected
            },
{
}

/// The spreading leaves alone every partition that a protected user owns.
pub proof fn lemma_propagation_spares_protected(
    snapshot: Seq<Seq<PackageRow>>,
    users: Seq<User>,
    p: int,
)
    requires
        0 <= p < snapshot.len(),
        has_owner(users, p, true),
    ensures
        propagated(snapshot, users)[p] == snapshot[p],
{
    assert(propagated(snapshot, users)[p] =~= snapshot[p]);
}

/// A selection that the spreading adds stands in a partition that takes
/// part, and was copied from a partition that takes part: one that a user
/// who is not protected owns and that no protected user owns.
pub proof fn lemma_propagation_copies_between_open_partitions(
    snapshot: Seq<Seq<PackageRow>>,
    users: Seq<User>,
    p: int,
    i: int,
)
    requires
        0 <= p < snapshot.len(),
        0 <= i < snapshot[p].len(),
        propagated(snapshot, users)[p][i].selected,
        !snapshot[p][i].selected,
    ensures
        takes_part(users, p),
        exists|s: int|
            0 <= s < snapshot.len() && takes_part(users, s) && 0 <= i < (
            #[trigger] snapshot[s]).len() && snapshot[s][i].selected,
{
}

/// In a partition that takes part, a package is selected after the
/// spreading exactly where it was selected in some partition that takes
/// part.
pub proof fn lemma_propagation_reaches_open_partitions(
    snapshot: Seq<Seq<PackageRow>>,
    users: Seq<User>,
    p: int,
    i: int,
)
    requires
        0 <= p < snapshot.len(),
        0 <= i < snapshot[p].len(),
        takes_part(users, p),
    ensures
        propagated(snapshot, users)[p][i].selected == selected_somewhere(snapshot, users, i),
{
    if snapshot[p][i].selected {
        assert(selected_below(snapshot, users, i, snapshot.len() as int));
    }
}

/// Spreading a selection that has spread changes nothing.
pub proof fn lemma_propagation_idempotent(snapshot: Seq<Seq<PackageRow>>, users: Seq<User>)
    ensures
        propagated(propagated(snapshot, users), users) == propagated(snapshot, users),
{
    let once = propagated(snapshot, users);
    let twice = propagated(once, users);
    assert forall|p: int, i: int| 0 <= p < once.len() && 0 <= i < once[p].len() implies twice[p][i]
        == once[p][i] by {
        if takes_part(users, p) && selected_somewhere(once, users, i) {
            let s = choose|s: int|
                0 <= s < once.len() && takes_part(users, s) && 0 <= i < (#[trigger] once[s]).len()
                    && once[s][i].selected;
            if snapshot[s][i].selected {
                assert(selected_below(snapshot, users, i, snapshot.len() as int));
            }
            assert(selected_somewhere(snapshot, users, i));
        }
    }
    assert forall|p: int| 0 <= p < once.len() implies twice[p] == once[p] by {
        assert(twice[p] =~= once[p]);
    }
    assert(twice =~= once);
}

} // verus!
