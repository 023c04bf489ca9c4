//! What is known of the releases of the application and of the package
//! descriptions, and how far an update of either has come.

use vstd::prelude::*;

verus! {

/// How far the download of the package descriptions has come.
#[derive(Debug, Clone, Copy, PartialEq, Eq, Structural)]
pub enum UadListState {
    Downloading,
    Done,
    Failed,
}

/// A release of the application.
#[derive(Debug, PartialEq, Eq)]
pub struct Release {
    pub name: String,
}

/// What a [`Release`] holds.
pub struct ReleaseView {
    pub name: Seq<char>,
}

impl DeepView for Release {
    type V = ReleaseView;

    open spec fn deep_view(&self) -> ReleaseView {
        ReleaseView { name: self.name@ }
    }
}

impl View for Release {
    type V = ReleaseView;

    open spec fn view(&self) -> ReleaseView {
        self.deep_view()
    }
}

impl Clone for Release {
    fn clone(&self) -> (copy: Release)
        ensures
            copy@ == self@,
    {
        Release { name: self.name.clone() }
    }
}

/// How far the application has come with updating itself.
#[derive(Debug, Clone, Copy, PartialEq, Eq, Structural)]
pub enum SelfUpdateStatus {
    /// Nothing has been asked.
    Idle,
    /// The latest release is being looked up.
    Checking,
    /// The latest release is known, or known not to exist.
    Done,
    /// The lookup or the update failed.
    Failed,
    /// The latest release is being downloaded to take the place of the
    /// running process.
    Updating,
}

/// The self-update of the application.
#[derive(Debug, PartialEq, Eq)]
pub struct SelfUpdateState {
    pub latest_release: Option<Release>,
    pub status: SelfUpdateStatus,
}

/// What a [`SelfUpdateState`] holds.
pub struct SelfUpdateView {
    pub latest_release: Option<ReleaseView>,
    pub status: SelfUpdateStatus,
}

impl DeepView for SelfUpdateState {
    type V = SelfUpdateView;

    open spec fn deep_view(&self) -> SelfUpdateView {
        SelfUpdateView { latest_release: self.latest_release.deep_view(), status: self.status }
    }
}

impl View for SelfUpdateState {
    type V = SelfUpdateView;

    open spec fn view(&self) -> SelfUpdateView {
        self.deep_view()
    }
}

impl Clone for SelfUpdateState {
    fn clone(&self) -> (copy: SelfUpdateState)
        ensures
            copy@ == self@,
    {
        SelfUpdateState {
            latest_release: match &self.latest_release {
                Some(release) => Some(release.clone()),
                None => None,
            },
            status: self.status,
        }
    }
}

/// The moves of the self-update: from idle to checking, from checking to
/// done or failed, from done to updating, from updating to failed. A state
/// that is not updating may also be replaced by a fresh one that is
/// checking.
pub open spec fn may_follow(from: SelfUpdateStatus, to: SelfUpdateStatus) -> bool {
    match (from, to) {
        (SelfUpdateStatus::Updating, SelfUpdateStatus::Failed) => true,
        (SelfUpdateStatus::Updating, _) => false,
        (_, SelfUpdateStatus::Checking) => true,
        (SelfUpdateStatus::Checking, SelfUpdateStatus::Done) => true,
        (SelfUpdateStatus::Checking, SelfUpdateStatus::Failed) => true,
        (SelfUpdateStatus::Done, SelfUpdateStatus::Updating) => true,
        _ => false,
    }
}

/// The state before anything has been asked.
pub open spec fn idle() -> SelfUpdateView {
    SelfUpdateView { latest_release: None, status: SelfUpdateStatus::Idle }
}

/// A lookup of the latest release can start: no update is under way.
pub open spec fn can_check(s: SelfUpdateView) -> bool {
    s.status != SelfUpdateStatus::Updating
}

/// The state once a lookup of the latest release has started.
pub open spec fn check_started(s: SelfUpdateView) -> SelfUpdateView {
    if can_check(s) {
        SelfUpdateView { latest_release: None, status: SelfUpdateStatus::Checking }
    } else {
        s
    }
}

/// The state once a lookup has come back with `found`, or has failed. An
/// answer that nothing is waiting for changes nothing.
pub open spec fn check_finished(
    s: SelfUpdateView,
    found: Result<Option<Release>, ()>,
) -> SelfUpdateView {
    if s.status == SelfUpdateStatus::Checking {
        match found {
            Ok(release) => SelfUpdateView {
                latest_release: release.deep_view(),
                status: SelfUpdateStatus::Done,
            },
            Err(_) => SelfUpdateView {
                latest_release: s.latest_release,
                status: SelfUpdateStatus::Failed,
            },
        }
    } else {
        s
    }
}

/// An update can start: the lookup is done and found a release.
pub open spec fn can_update(s: SelfUpdateView) -> bool {
    s.status == SelfUpdateStatus::Done && s.latest_release is Some
}

/// The state once the update has started.
pub open spec fn update_started(s: SelfUpdateView) -> SelfUpdateView {
    if can_update(s) {
        SelfUpdateView { latest_release: s.latest_release, status: SelfUpdateStatus::Updating }
    } else {
        s
    }
}

/// The state once the download of the release has failed.
pub open spec fn update_failed(s: SelfUpdateView) -> SelfUpdateView {
    if s.status == SelfUpdateStatus::Updating {
        SelfUpdateView { latest_release: s.latest_release, status: SelfUpdateStatus::Failed }
    } else {
        s
    }
}

impl SelfUpdateState {
    /// The state before anything has been asked.
    pub fn new() -> (state: SelfUpdateState)
        ensures
            state@ == idle(),
    {
        SelfUpdateState { latest_release: None, status: SelfUpdateStatus::Idle }
    }

    /// Starts a lookup of the latest release, unless an update is under
    /// way. Tells whether it started one.
    pub fn start_check(&mut self) -> (started: bool)
        ensures
            started == can_check(old(self)@),
            final(self)@ == check_started(old(self)@),
    {
        match self.status {
            SelfUpdateStatus::Updating => false,
            _ => {
                *self = SelfUpdateState {
                    latest_release: None,
                    status: SelfUpdateStatus::Checking,
                };
                true
            },
        }
    }

    /// Takes the answer of a lookup.
    pub fn finish_check(&mut self, found: Result<Option<Release>, ()>)
        ensures
            final(self)@ == check_finished(old(self)@, found),
    {
        match self.status {
            SelfUpdateStatus::Checking => {
                match found {
                    Ok(release) => {
                        *self = SelfUpdateState {
                            latest_release: release,
                            status: SelfUpdateStatus::Done,
                        };
                    },
                    Err(_) => {
                        self.status = SelfUpdateStatus::Failed;
                    },
                }
            },
            _ => {},
        }
    }

    /// Starts the update, where the lookup found a release. Tells whether
    /// it started.
    pub fn start_update(&mut self) -> (started: bool)
        ensures
            started == can_update(old(self)@),
            final(self)@ == update_started(old(self)@),
    {
        match self.status {
            SelfUpdateStatus::Done => {
                if self.latest_release.is_some() {
                    self.status = SelfUpdateStatus::Updating;
                    true
                } else {
                    false
                }
            },
            _ => false,
        }
    }

    /// Records that the download of the release failed.
    pub fn fail_update(&mut self)
        ensures
            final(self)@ == update_failed(old(self)@),
    {
        match self.status {
            SelfUpdateStatus::Updating => {
                self.status = SelfUpdateStatus::Failed;
            },
            _ => {},
        }
    }
}

/// Whatever happens to the self-update, its status stays or makes one of
/// the moves that are allowed.
pub proof fn lemma_self_update_moves(s: SelfUpdateView, found: Result<Option<Release>, ()>)
    ensures
        check_started(s).status == s.status || may_follow(s.status, check_started(s).status),
        check_finished(s, found).status == s.status || may_follow(
            s.status,
            check_finished(s, found).status,
        ),
        update_started(s).status == s.status || may_follow(s.status, update_started(s).status),
        update_failed(s).status == s.status || may_follow(s.status, update_failed(s).status),
{
}

/// An update that is under way ends in failure or not at all: nothing
/// else takes the status away from updating.
pub proof fn lemma_update_under_way_is_kept(s: SelfUpdateView, found: Result<Option<Release>, ()>)
    requires
        s.status == SelfUpdateStatus::Updating,
    ensures
        check_started(s) == s,
        check_finished(s, found) == s,
        update_started(s) == s,
        update_failed(s).status == SelfUpdateStatus::Failed,
{
}

} // verus!
