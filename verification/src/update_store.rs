//! What an update leaves behind: a model of the records in the update
//! directory and of the reboot requests, and what holds of every run of the
//! update manager against it.

use crate::config::Config;
use crate::model::BuildInfoView;
use crate::step::OutcomeView;
use crate::update::{UpdateAction, UpdateManagerMessage, UpdateManagerView};
use vstd::prelude::*;

verus! {

/// What the update manager records on one node for one software.
pub struct UpdateStore {
    /// The record of the downloaded binary, if the file is there.
    pub downloaded: Option<BuildInfoView>,
    /// The record of the installed binary, if the file is there.
    pub installed: Option<BuildInfoView>,
    /// The record of the binary that was installed before, if the file is there.
    pub previous: Option<BuildInfoView>,
    /// The latch that makes the next reboot check reboot.
    pub reboot_pending: bool,
    /// How often the reboot manager was told to reboot now.
    pub reboot_requests: nat,
}

/// The record that a file stands for: a missing file stands for the empty
/// record.
pub open spec fn record(file: Option<BuildInfoView>) -> BuildInfoView {
    match file {
        Some(info) => info,
        None => BuildInfoView::empty(),
    }
}

impl UpdateAction {
    /// The actions that only look: they read a record, ask whether a file is
    /// there, or ask the provider for its record. The update directory, which
    /// is created where it is missing, is there after the first update.
    pub open spec fn only_looks(self) -> bool {
        self == UpdateAction::EnsureUpdateDir || self == UpdateAction::LookForDownloadedInfo
            || self == UpdateAction::ReadDownloadedInfo || self == UpdateAction::FetchLatestInfo
            || self == UpdateAction::LookForInstalledInfo || self
            == UpdateAction::ReadInstalledInfo
    }
}

impl UpdateStore {
    /// Whether `outcome` reports truthfully on the store, as the outcome of
    /// the action that `m` waits for.
    pub open spec fn truthful(self, m: UpdateManagerView, outcome: OutcomeView) -> bool {
        match m.awaiting {
            UpdateAction::LookForDownloadedInfo => outcome == OutcomeView::Exists(
                self.downloaded is Some,
            ),
            UpdateAction::ReadDownloadedInfo => outcome is Info ==> self.downloaded == Some(
                outcome->Info_0,
            ),
            UpdateAction::LookForInstalledInfo => outcome == OutcomeView::Exists(
                self.installed is Some,
            ),
            UpdateAction::ReadInstalledInfo => outcome is Info ==> self.installed == Some(
                outcome->Info_0,
            ),
            _ => true,
        }
    }

    /// The store after the action that `m` waits for was carried out with
    /// `outcome`. An action that failed is taken to have changed nothing.
    pub open spec fn after(self, m: UpdateManagerView, outcome: OutcomeView) -> UpdateStore {
        if !(outcome is Succeeded) {
            self
        } else {
            match m.awaiting {
                UpdateAction::WriteDownloadedInfo => UpdateStore {
                    downloaded: Some(m.latest),
                    ..self
                },
                UpdateAction::RotateInstalledInfo => UpdateStore {
                    previous: self.installed,
                    installed: None,
                    ..self
                },
                UpdateAction::WriteInstalledInfo => UpdateStore {
                    installed: Some(m.latest),
                    ..self
                },
                UpdateAction::SetRebootPending => UpdateStore { reboot_pending: true, ..self },
                UpdateAction::RequestReboot => UpdateStore {
                    reboot_requests: self.reboot_requests + 1,
                    ..self
                },
                _ => self,
            }
        }
    }
}

/// The manager and the store after the first `n` of `outcomes`.
pub open spec fn run(m: UpdateManagerView, store: UpdateStore, outcomes: Seq<OutcomeView>, n: int) -> (
    UpdateManagerView,
    UpdateStore,
)
    decreases n,
{
    if n <= 0 {
        (m, store)
    } else {
        let before = run(m, store, outcomes, n - 1);
        (before.0.next(outcomes[n - 1]), before.1.after(before.0, outcomes[n - 1]))
    }
}

/// Whether each of the first `n` of `outcomes` answers the action that was
/// asked for and reports truthfully on the store.
pub open spec fn honest(m: UpdateManagerView, store: UpdateStore, outcomes: Seq<OutcomeView>, n: int) -> bool
    decreases n,
{
    n <= 0 || {
        let before = run(m, store, outcomes, n - 1);
        &&& honest(m, store, outcomes, n - 1)
        &&& before.0.answers(outcomes[n - 1])
        &&& before.1.truthful(before.0, outcomes[n - 1])
    }
}

/// What an update knows of the store while it waits for an action.
pub open spec fn records_known(m: UpdateManagerView, store: UpdateStore) -> bool {
    match m.awaiting {
        UpdateAction::EnsureUpdateDir | UpdateAction::LookForDownloadedInfo => true,
        UpdateAction::ReadDownloadedInfo => store.downloaded is Some,
        UpdateAction::FetchLatestInfo => m.current == record(store.downloaded),
        UpdateAction::FetchEncryptedBinary
        | UpdateAction::WriteEncryptedBinary
        | UpdateAction::ImportSigningKey
        | UpdateAction::LookForStagedBinary
        | UpdateAction::RemoveStagedBinary
        | UpdateAction::DecryptBinary
        | UpdateAction::WriteDownloadedInfo => true,
        UpdateAction::LookForInstalledInfo => record(store.downloaded) == m.latest,
        UpdateAction::ReadInstalledInfo => record(store.downloaded) == m.latest
            && store.installed is Some,
        UpdateAction::RotateInstalledInfo
        | UpdateAction::CheckInstallTarget
        | UpdateAction::RotateInstallTarget
        | UpdateAction::CopyBinaryToTarget
        | UpdateAction::MakeTargetExecutable
        | UpdateAction::WriteInstalledInfo => record(store.downloaded) == m.latest,
        UpdateAction::CheckDataDir
        | UpdateAction::CheckOldDataDir
        | UpdateAction::RemoveOldDataDir
        | UpdateAction::RotateDataDir
        | UpdateAction::SetRebootPending
        | UpdateAction::RequestReboot => record(store.downloaded) == m.latest && record(
            store.installed,
        ) == m.latest,
        UpdateAction::StopBackend | UpdateAction::StartBackend => false,
        UpdateAction::Finish(r) => r is Ok ==> record(store.downloaded) == m.latest && record(
            store.installed,
        ) == m.latest,
    }
}

proof fn lemma_run_keeps_records_known(
    message: UpdateManagerMessage,
    config: Config,
    store: UpdateStore,
    outcomes: Seq<OutcomeView>,
    n: int,
)
    requires
        message is UpdateSoftware,
        0 <= n,
        honest(UpdateManagerView::started(message, config), store, outcomes, n),
    ensures
        records_known(
            run(UpdateManagerView::started(message, config), store, outcomes, n).0,
            run(UpdateManagerView::started(message, config), store, outcomes, n).1,
        ),
        run(UpdateManagerView::started(message, config), store, outcomes, n).0.message == message,
    decreases n,
{
    if n > 0 {
        lemma_run_keeps_records_known(message, config, store, outcomes, n - 1);
    }
}

/// After a successful update the record of the downloaded binary equals the
/// record of the installed binary, and both are the record of the latest
/// build that the provider reported: whatever was on record before, whichever
/// steps the update had to take, and whatever the caller reported on them, as
/// long as it reported truthfully on the two record files.
pub proof fn lemma_update_leaves_records_equal(
    message: UpdateManagerMessage,
    config: Config,
    store: UpdateStore,
    outcomes: Seq<OutcomeView>,
    n: int,
)
    requires
        message is UpdateSoftware,
        0 <= n,
        honest(UpdateManagerView::started(message, config), store, outcomes, n),
        run(UpdateManagerView::started(message, config), store, outcomes, n).0.awaiting
            == UpdateAction::Finish(Ok(())),
    ensures
        record(run(UpdateManagerView::started(message, config), store, outcomes, n).1.downloaded)
            == record(
            run(UpdateManagerView::started(message, config), store, outcomes, n).1.installed,
        ),
        record(run(UpdateManagerView::started(message, config), store, outcomes, n).1.installed)
            == run(UpdateManagerView::started(message, config), store, outcomes, n).0.latest,
{
    lemma_run_keeps_records_known(message, config, store, outcomes, n);
}

/// A retry heals what a failed update left behind. Whatever state an update
/// that failed has left the records in, the next update that succeeds leaves
/// the downloaded and the installed record equal.
pub proof fn lemma_retry_heals(
    message: UpdateManagerMessage,
    config: Config,
    store: UpdateStore,
    failed: Seq<OutcomeView>,
    failed_steps: int,
    retried: Seq<OutcomeView>,
    retried_steps: int,
)
    requires
        message is UpdateSoftware,
        0 <= failed_steps,
        0 <= retried_steps,
        honest(UpdateManagerView::started(message, config), store, failed, failed_steps),
        run(UpdateManagerView::started(message, config), store, failed, failed_steps).0.awaiting
            is Finish,
        honest(
            UpdateManagerView::started(message, config),
            run(UpdateManagerView::started(message, config), store, failed, failed_steps).1,
            retried,
            retried_steps,
        ),
        run(
            UpdateManagerView::started(message, config),
            run(UpdateManagerView::started(message, config), store, failed, failed_steps).1,
            retried,
            retried_steps,
        ).0.awaiting == UpdateAction::Finish(Ok(())),
    ensures
        ({
            let left = run(UpdateManagerView::started(message, config), store, failed, failed_steps).1;
            let healed = run(
                UpdateManagerView::started(message, config),
                left,
                retried,
                retried_steps,
            ).1;
            record(healed.downloaded) == record(healed.installed)
        }),
{
    let left = run(UpdateManagerView::started(message, config), store, failed, failed_steps).1;
    lemma_update_leaves_records_equal(message, config, left, retried, retried_steps);
}

/// What an update that finds nothing new knows of the store.
pub open spec fn nothing_new(m: UpdateManagerView, store: UpdateStore) -> bool {
    &&& record(store.downloaded) == record(store.installed)
    &&& match m.awaiting {
        UpdateAction::EnsureUpdateDir | UpdateAction::LookForDownloadedInfo => true,
        UpdateAction::ReadDownloadedInfo => store.downloaded is Some,
        UpdateAction::FetchLatestInfo => m.current == record(store.downloaded),
        UpdateAction::LookForInstalledInfo => m.latest == record(store.downloaded),
        UpdateAction::ReadInstalledInfo => m.latest == record(store.downloaded)
            && store.installed is Some,
        UpdateAction::Finish(_) => true,
        _ => false,
    }
}

/// Whether, in the first `n` steps of the run, the provider reported the
/// build that is on record as downloaded each time it was asked.
pub open spec fn provider_unchanged(
    m: UpdateManagerView,
    store: UpdateStore,
    outcomes: Seq<OutcomeView>,
    n: int,
) -> bool {
    forall|k: int|
        0 <= k < n && (#[trigger] run(m, store, outcomes, k)).0.awaiting
            == UpdateAction::FetchLatestInfo && outcomes[k] is Info ==> outcomes[k]->Info_0
            == record(store.downloaded)
}

/// An update that follows a successful one, with no new build at the
/// provider, changes nothing: where the downloaded and the installed record
/// agree and the provider reports that same build, the update only looks, and
/// the store stays as it was at every step.
pub proof fn lemma_repeated_update_changes_nothing(
    message: UpdateManagerMessage,
    config: Config,
    store: UpdateStore,
    outcomes: Seq<OutcomeView>,
    n: int,
)
    requires
        message is UpdateSoftware,
        0 <= n,
        record(store.downloaded) == record(store.installed),
        honest(UpdateManagerView::started(message, config), store, outcomes, n),
        provider_unchanged(UpdateManagerView::started(message, config), store, outcomes, n),
    ensures
        run(UpdateManagerView::started(message, config), store, outcomes, n).1 == store,
        nothing_new(run(UpdateManagerView::started(message, config), store, outcomes, n).0, store),
        run(UpdateManagerView::started(message, config), store, outcomes, n).0.awaiting.only_looks()
            || run(UpdateManagerView::started(message, config), store, outcomes, n).0.awaiting
            is Finish,
    decreases n,
{
    if n > 0 {
        let m = UpdateManagerView::started(message, config);
        assert(provider_unchanged(m, store, outcomes, n - 1));
        lemma_repeated_update_changes_nothing(message, config, store, outcomes, n - 1);
        let before = run(m, store, outcomes, n - 1);
        assert(before.0.awaiting == UpdateAction::FetchLatestInfo && outcomes[n - 1] is Info
            ==> outcomes[n - 1]->Info_0 == record(store.downloaded));
    }
}

/// With no new build and both records readable, the repeated update comes to
/// a successful end after its looks, without any other action.
pub proof fn lemma_repeated_update_ends_well(
    message: UpdateManagerMessage,
    config: Config,
    info: BuildInfoView,
)
    requires
        message is UpdateSoftware,
    ensures
        ({
            let m0 = UpdateManagerView::started(message, config);
            let m1 = m0.next(OutcomeView::Succeeded);
            let m2 = m1.next(OutcomeView::Exists(true));
            let m3 = m2.next(OutcomeView::Info(info));
            let m4 = m3.next(OutcomeView::Info(info));
            let m5 = m4.next(OutcomeView::Exists(true));
            let m6 = m5.next(OutcomeView::Info(info));
            &&& m0.awaiting == UpdateAction::EnsureUpdateDir
            &&& m1.awaiting == UpdateAction::LookForDownloadedInfo
            &&& m2.awaiting == UpdateAction::ReadDownloadedInfo
            &&& m3.awaiting == UpdateAction::FetchLatestInfo
            &&& m4.awaiting == UpdateAction::LookForInstalledInfo
            &&& m5.awaiting == UpdateAction::ReadInstalledInfo
            &&& m6.awaiting == UpdateAction::Finish(Ok(()))
        }),
{
}

/// The reboot manager is told to reboot at most once per update, only where
/// the command asked for it, and only after the latch was set.
pub open spec fn reboot_accounted(m: UpdateManagerView, before: UpdateStore, now: UpdateStore) -> bool {
    &&& now.reboot_requests == before.reboot_requests || (now.reboot_requests
        == before.reboot_requests + 1 && m.message.force_reboot() && now.reboot_pending
        && m.awaiting is Finish)
    &&& m.awaiting == UpdateAction::RequestReboot ==> now.reboot_pending
        && m.message.force_reboot()
    &&& before.reboot_pending ==> now.reboot_pending
    &&& m.awaiting == UpdateAction::Finish(Ok(())) && m.message.force_reboot()
        && now.reboot_pending && !before.reboot_pending ==> now.reboot_requests
        == before.reboot_requests + 1
    &&& !(m.awaiting is Finish) && m.awaiting != UpdateAction::RequestReboot
        ==> now.reboot_pending == before.reboot_pending
}

/// In every run of an update the reboot manager is told to reboot at most
/// once, only on a command that asks for it and with the latch set before;
/// and the latch, once set, stays set.
pub proof fn lemma_reboot_requested_once(
    message: UpdateManagerMessage,
    config: Config,
    store: UpdateStore,
    outcomes: Seq<OutcomeView>,
    n: int,
)
    requires
        0 <= n,
        honest(UpdateManagerView::started(message, config), store, outcomes, n),
    ensures
        reboot_accounted(
            run(UpdateManagerView::started(message, config), store, outcomes, n).0,
            store,
            run(UpdateManagerView::started(message, config), store, outcomes, n).1,
        ),
        run(UpdateManagerView::started(message, config), store, outcomes, n).0.message == message,
    decreases n,
{
    if n > 0 {
        lemma_reboot_requested_once(message, config, store, outcomes, n - 1);
    }
}

} // verus!
