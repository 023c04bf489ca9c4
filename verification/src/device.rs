//! Device registry: the reachable devices and the one that is selected.

use vstd::prelude::*;

verus! {

/// Lowest platform version on which a device hosts more than one user.
pub const MULTI_USER_MIN_SDK: u8 = 21;

/// Lowest platform version on which a package can be disabled rather than
/// uninstalled.
pub const DISABLE_MODE_MIN_SDK: u8 = 23;

/// A user of a device. `index` is the position of the user's partition in
/// the per-user package lists of the device.
#[derive(Clone, Copy, Debug, PartialEq, Eq, Structural)]
pub struct User {
    pub id: u16,
    pub index: usize,
    pub protected: bool,
}

impl Default for User {
    fn default() -> (user: User)
        ensures
            user == (User { id: 0, index: 0, protected: false }),
    {
        User { id: 0, index: 0, protected: false }
    }
}

/// A reachable device. `adb_id` is its identity.
#[derive(Debug, PartialEq, Eq)]
pub struct Phone {
    pub model: String,
    pub android_sdk: u8,
    pub user_list: Vec<User>,
    pub adb_id: String,
}

/// What a [`Phone`] holds.
pub struct PhoneView {
    pub model: Seq<char>,
    pub android_sdk: u8,
    pub user_list: Seq<User>,
    pub adb_id: Seq<char>,
}

impl DeepView for Phone {
    type V = PhoneView;

    open spec fn deep_view(&self) -> PhoneView {
        PhoneView {
            model: self.model@,
            android_sdk: self.android_sdk,
            user_list: self.user_list@,
            adb_id: self.adb_id@,
        }
    }
}

impl View for Phone {
    type V = PhoneView;

    open spec fn view(&self) -> PhoneView {
        self.deep_view()
    }
}

/// The device that stands for "no device": no identity, no users.
pub open spec fn no_device() -> PhoneView {
    PhoneView {
        model: "fetching devices..."@,
        android_sdk: 0,
        user_list: Seq::empty(),
        adb_id: Seq::empty(),
    }
}

impl Default for Phone {
    fn default() -> (phone: Phone)
        ensures
            phone@ == no_device(),
    {
        Phone {
            model: "fetching devices...".to_string(),
            android_sdk: 0,
            user_list: Vec::new(),
            adb_id: String::new(),
        }
    }
}

/// A copy of a list of users.
pub fn copy_users(users: &Vec<User>) -> (copy: Vec<User>)
    ensures
        copy@ == users@,
{
    let mut copy: Vec<User> = Vec::new();
    let mut i: usize = 0;
    while i < users.len()
        invariant
            i <= users.len(),
            copy@ == users@.take(i as int),
        decreases users.len() - i,
    {
        copy.push(users[i]);
        i += 1;
    }
    copy
}

impl Clone for Phone {
    fn clone(&self) -> (copy: Phone)
        ensures
            copy@ == self@,
    {
        Phone {
            model: self.model.clone(),
            android_sdk: self.android_sdk,
            user_list: copy_users(&self.user_list),
            adb_id: self.adb_id.clone(),
        }
    }
}

/// A copy of a list of devices.
pub fn copy_phones(list: &Vec<Phone>) -> (copy: Vec<Phone>)
    ensures
        copy.deep_view() == list.deep_view(),
{
    let mut copy: Vec<Phone> = Vec::new();
    let mut i: usize = 0;
    while i < list.len()
        invariant
            i <= list.len(),
            copy@.len() == i,
            forall|j: int| 0 <= j < i ==> (#[trigger] copy@[j])@ == list@[j]@,
        decreases list.len() - i,
    {
        copy.push(list[i].clone());
        i += 1;
    }
    assert(copy.deep_view() =~= list.deep_view());
    copy
}

impl Phone {
    /// Whether the device hosts more than one user, as its platform
    /// version tells.
    pub fn supports_multi_user(&self) -> (supported: bool)
        ensures
            supported == multi_user_capable(self@),
    {
        self.android_sdk >= MULTI_USER_MIN_SDK
    }

    /// Whether packages of the device can be disabled.
    pub fn supports_disable_mode(&self) -> (supported: bool)
        ensures
            supported == disable_capable(self@),
    {
        self.android_sdk >= DISABLE_MODE_MIN_SDK
    }
}

/// The platform of the device is one that hosts more than one user.
pub open spec fn multi_user_capable(phone: PhoneView) -> bool {
    phone.android_sdk >= MULTI_USER_MIN_SDK
}

/// The platform of the device is one on which packages can be disabled.
pub open spec fn disable_capable(phone: PhoneView) -> bool {
    phone.android_sdk >= DISABLE_MODE_MIN_SDK
}

/// A device of identity `id` is in `list`.
pub open spec fn known(list: Seq<PhoneView>, id: Seq<char>) -> bool {
    exists|i: int| 0 <= i < list.len() && #[trigger] list[i].adb_id == id
}

/// `i` is the first position in `list` of a device of identity `id`.
pub open spec fn is_first_match(list: Seq<PhoneView>, id: Seq<char>, i: int) -> bool {
    &&& 0 <= i < list.len()
    &&& list[i].adb_id == id
    &&& forall|j: int| 0 <= j < i ==> #[trigger] list[j].adb_id != id
}

/// The first position in `list` of a device of identity `id`.
pub open spec fn first_match(list: Seq<PhoneView>, id: Seq<char>) -> int {
    choose|i: int| is_first_match(list, id, i)
}

/// The selection after a refresh: the entry of `list` that has the identity
/// of the previous selection, with whatever the refresh reported of it;
/// where there is none, the first entry; nothing where the list is empty.
pub open spec fn reconciled(prev: Option<PhoneView>, list: Seq<PhoneView>) -> Option<PhoneView> {
    if list.len() == 0 {
        None
    } else if prev is Some && known(list, prev->0.adb_id) {
        Some(list[first_match(list, prev->0.adb_id)])
    } else {
        Some(list[0])
    }
}

/// A first position is the only one.
pub proof fn lemma_first_match_unique(list: Seq<PhoneView>, id: Seq<char>, i: int)
    requires
        is_first_match(list, id, i),
    ensures
        first_match(list, id) == i,
{
    let k = first_match(list, id);
    assert(is_first_match(list, id, k));
    if k < i {
        assert(list[k].adb_id != id);
    } else if i < k {
        assert(list[i].adb_id != id);
    }
}

/// A known identity has a first position.
pub proof fn lemma_known_has_first_match(list: Seq<PhoneView>, id: Seq<char>)
    requires
        known(list, id),
    ensures
        is_first_match(list, id, first_match(list, id)),
{
    let w = choose|i: int| 0 <= i < list.len() && #[trigger] list[i].adb_id == id;
    lemma_first_match_below(list, id, w);
}

proof fn lemma_first_match_below(list: Seq<PhoneView>, id: Seq<char>, w: int)
    requires
        0 <= w < list.len(),
        list[w].adb_id == id,
    ensures
        is_first_match(list, id, first_match(list, id)),
    decreases w,
{
    if exists|j: int| 0 <= j < w && #[trigger] list[j].adb_id == id {
        let j = choose|j: int| 0 <= j < w && #[trigger] list[j].adb_id == id;
        lemma_first_match_below(list, id, j);
    } else {
        assert(is_first_match(list, id, w));
    }
}

/// Position in `list` of the first device of identity `id`, if any.
pub fn find_device(list: &Vec<Phone>, id: &String) -> (found: Option<usize>)
    ensures
        found is Some <==> known(list.deep_view(), id@),
        found is Some ==> found->0 == first_match(list.deep_view(), id@),
{
    let mut i: usize = 0;
    while i < list.len()
        invariant
            i <= list.len(),
            forall|j: int| 0 <= j < i ==> #[trigger] list.deep_view()[j].adb_id != id@,
        decreases list.len() - i,
    {
        if list[i].adb_id == *id {
            proof {
                assert(list.deep_view()[i as int].adb_id == id@);
                assert(is_first_match(list.deep_view(), id@, i as int));
                lemma_first_match_unique(list.deep_view(), id@, i as int);
            }
            return Some(i);
        }
        i += 1;
    }
    None
}

/// Resolves the selection against a refreshed list of devices.
pub fn reconcile(previous_selection: Option<&Phone>, new_list: &Vec<Phone>) -> (selection: Option<
    Phone,
>)
    ensures
        selection.deep_view() == reconciled(previous_selection.deep_view(), new_list.deep_view()),
{
    if new_list.len() == 0 {
        return None;
    }
    match previous_selection {
        Some(previous) => {
            match find_device(new_list, &previous.adb_id) {
                Some(i) => {
                    proof {
                        lemma_known_has_first_match(new_list.deep_view(), previous.adb_id@);
                    }
                    Some(new_list[i].clone())
                },
                None => Some(new_list[0].clone()),
            }
        },
        None => Some(new_list[0].clone()),
    }
}

/// Reconciling twice against the same list changes nothing: the selection
/// that a refresh resolved is the one that the same refresh resolves again.
pub proof fn lemma_reconcile_idempotent(prev: Option<PhoneView>, list: Seq<PhoneView>)
    ensures
        reconciled(reconciled(prev, list), list) == reconciled(prev, list),
{
    if list.len() > 0 {
        let first = reconciled(prev, list);
        let k = if prev is Some && known(list, prev->0.adb_id) {
            lemma_known_has_first_match(list, prev->0.adb_id);
            first_match(list, prev->0.adb_id)
        } else {
            0
        };
        assert(first == Some(list[k]));
        let id = list[k].adb_id;
        assert(is_first_match(list, id, k));
        lemma_first_match_unique(list, id, k);
        assert(known(list, id));
    }
}

/// Starting from no selection, a second refresh with the same list keeps
/// what the first one selected.
pub proof fn lemma_reconcile_from_none_idempotent(list: Seq<PhoneView>)
    ensures
        reconciled(reconciled(None, list), list) == reconciled(None, list),
{
    lemma_reconcile_idempotent(None, list);
}

/// A selected device that the refreshed list does not hold gives way to
/// the first device of the list, and to no selection where the list is
/// empty.
pub proof fn lemma_reconcile_missing_falls_back(selected: PhoneView, list: Seq<PhoneView>)
    requires
        !known(list, selected.adb_id),
    ensures
        list.len() == 0 ==> reconciled(Some(selected), list) is None,
        list.len() > 0 ==> reconciled(Some(selected), list) == Some(list[0]),
{
}

/// No two devices of the list have one identity.
pub open spec fn distinct_identities(list: Seq<PhoneView>) -> bool {
    forall|i: int, j: int|
        0 <= i < j < list.len() ==> (#[trigger] list[i]).adb_id != (#[trigger] list[j]).adb_id
}

/// In a list without a repeated identity, the selection is the one entry
/// that has the identity of the previous selection.
pub proof fn lemma_reconcile_selects_the_one(prev: PhoneView, list: Seq<PhoneView>, i: int)
    requires
        distinct_identities(list),
        0 <= i < list.len(),
        list[i].adb_id == prev.adb_id,
    ensures
        reconciled(Some(prev), list) == Some(list[i]),
{
    assert(known(list, prev.adb_id));
    lemma_known_has_first_match(list, prev.adb_id);
    let k = first_match(list, prev.adb_id);
    if k < i {
        assert(list[k].adb_id != list[i].adb_id);
    }
}

/// The selection is an entry of the list, it is there whenever the list has
/// an entry, and it keeps the previous identity whenever the list knows it.
pub proof fn lemma_reconcile_selects_from_list(prev: Option<PhoneView>, list: Seq<PhoneView>)
    ensures
        reconciled(prev, list) is Some <==> list.len() > 0,
        reconciled(prev, list) is Some ==> list.contains(reconciled(prev, list)->0),
        prev is Some && known(list, prev->0.adb_id) ==> reconciled(prev, list)->0.adb_id
            == prev->0.adb_id,
{
    if list.len() > 0 {
        if prev is Some && known(list, prev->0.adb_id) {
            lemma_known_has_first_match(list, prev->0.adb_id);
        }
    }
}

} // verus!
