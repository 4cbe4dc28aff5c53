//! What a build leaves behind: a model of the artifacts in the archive and in
//! the latest build, and what holds of every run of the build manager against
//! it.

use crate::builder::{BuildAction, BuildError, BuildManagerMessage, BuildManagerView};
use crate::config::Config;
use crate::model::BuildInfoView;
use crate::step::OutcomeView;
use vstd::prelude::*;

verus! {

/// The three artifacts of a build, each with the commit it comes from.
pub struct Artifacts {
    /// The commit that the binary was built from, if the binary is there.
    pub binary: Option<Seq<char>>,
    /// The commit of the binary that was signed and encrypted, if the
    /// encrypted binary is there.
    pub encrypted: Option<Seq<char>>,
    /// The record, if it is there.
    pub info: Option<BuildInfoView>,
}

impl Artifacts {
    /// No artifact is there.
    pub open spec fn none() -> Artifacts {
        Artifacts { binary: None, encrypted: None, info: None }
    }

    /// The record describes the commit that the encrypted binary was
    /// produced from.
    pub open spec fn coherent(self) -> bool {
        match self.info {
            Some(info) => self.encrypted == Some(info.commit_sha),
            None => true,
        }
    }

    /// The commit that the record names; the empty text where there is no
    /// record.
    pub open spec fn commit(self) -> Seq<char> {
        match self.info {
            Some(info) => info.commit_sha,
            None => Seq::empty(),
        }
    }
}

/// What the build manager works on, on one node for one software.
pub struct BuildStore {
    /// The commit that the repository is at once it was pulled, as `git
    /// rev-parse HEAD` prints it.
    pub head: Seq<char>,
    /// The commit that the binary in the repository was built from.
    pub built: Option<Seq<char>>,
    /// The artifacts in the archive directory of this build.
    pub archive: Artifacts,
    /// The artifacts of the latest build.
    pub latest: Artifacts,
    /// How many builds the history holds.
    pub archives: nat,
}

impl BuildAction {
    /// The actions that bring the repository up to date and look at the
    /// latest build: nothing is built, archived or published by them.
    pub open spec fn only_refreshes(self) -> bool {
        self == BuildAction::EnsureBuildDir || self == BuildAction::CheckRepository || self
            == BuildAction::GitClone || self == BuildAction::GitPull || self
            == BuildAction::EnsureLatestDir || self == BuildAction::LookForLatestInfo || self
            == BuildAction::ReadLatestInfo || self == BuildAction::ReadHeadCommit
    }
}

impl BuildError {
    /// The errors that a command gives rise to: it could not be run, it ended
    /// unsuccessfully, or what it printed was no text.
    pub open spec fn of_command(self) -> bool {
        self is CommandFailed || self == BuildError::ProcessWaitFailed || self
            == BuildError::InvalidOutput
    }
}

impl BuildStore {
    /// Whether `outcome` reports truthfully on the store, as the outcome of
    /// the action that `m` waits for.
    pub open spec fn truthful(self, m: BuildManagerView, outcome: OutcomeView) -> bool {
        match m.awaiting {
            BuildAction::LookForLatestInfo => outcome == OutcomeView::Exists(
                self.latest.info is Some,
            ),
            BuildAction::ReadLatestInfo => outcome is Info ==> self.latest.info == Some(
                outcome->Info_0,
            ),
            BuildAction::ReadHeadCommit | BuildAction::ReadCommitForRecord => outcome is Text
                ==> outcome->Text_0 == self.head,
            _ => true,
        }
    }

    /// The store after the action that `m` waits for was carried out with
    /// `outcome`. An action that failed is taken to have changed nothing.
    pub open spec fn after(self, m: BuildManagerView, outcome: OutcomeView) -> BuildStore {
        if !(outcome is Succeeded) {
            self
        } else {
            match m.awaiting {
                BuildAction::CargoBuild => BuildStore { built: Some(self.head), ..self },
                BuildAction::CreateArchiveDir => BuildStore {
                    archive: Artifacts::none(),
                    archives: self.archives + 1,
                    ..self
                },
                BuildAction::ArchiveBinary => BuildStore {
                    archive: Artifacts { binary: self.built, ..self.archive },
                    ..self
                },
                BuildAction::EncryptAndSign => BuildStore {
                    archive: Artifacts { encrypted: self.archive.binary, ..self.archive },
                    ..self
                },
                BuildAction::WriteArchiveInfo => BuildStore {
                    archive: Artifacts { info: Some(m.record()), ..self.archive },
                    ..self
                },
                BuildAction::PublishBinary => BuildStore {
                    latest: Artifacts { binary: self.built, ..self.latest },
                    ..self
                },
                BuildAction::PublishEncrypted => BuildStore {
                    latest: Artifacts { encrypted: self.archive.encrypted, ..self.latest },
                    ..self
                },
                BuildAction::PublishInfo => BuildStore {
                    latest: Artifacts { info: self.archive.info, ..self.latest },
                    ..self
                },
                _ => self,
            }
        }
    }
}

/// The manager and the store after the first `n` of `outcomes`.
pub open spec fn run(m: BuildManagerView, store: BuildStore, outcomes: Seq<OutcomeView>, n: int) -> (
    BuildManagerView,
    BuildStore,
)
    decreases n,
{
    if n <= 0 {
        (m, store)
    } else {
        let before = run(m, store, outcomes, n - 1);
        (before.0.next(outcomes[n - 1]), before.1.after(before.0, outcomes[n - 1]))
    }
}

/// Whether each of the first `n` of `outcomes` answers the action that was
/// asked for and reports truthfully on the store.
pub open spec fn honest(m: BuildManagerView, store: BuildStore, outcomes: Seq<OutcomeView>, n: int) -> bool
    decreases n,
{
    n <= 0 || {
        let before = run(m, store, outcomes, n - 1);
        &&& honest(m, store, outcomes, n - 1)
        &&& before.0.answers(outcomes[n - 1])
        &&& before.1.truthful(before.0, outcomes[n - 1])
    }
}

/// What a build knows of the store while it waits for an action, given the
/// latest build as it was when the build began.
pub open spec fn artifacts_known(m: BuildManagerView, store: BuildStore, latest: Artifacts) -> bool {
    match m.awaiting {
        BuildAction::EnsureBuildDir
        | BuildAction::CheckRepository
        | BuildAction::GitClone
        | BuildAction::GitPull
        | BuildAction::EnsureLatestDir
        | BuildAction::LookForLatestInfo
        | BuildAction::ReadLatestInfo
        | BuildAction::ReadHeadCommit
        | BuildAction::RunPreBuildScript
        | BuildAction::CargoBuild => store.latest == latest,
        BuildAction::ReadBinaryBuildInfo
        | BuildAction::ReadClock
        | BuildAction::EnsureHistoryDir
        | BuildAction::CreateArchiveDir
        | BuildAction::ArchiveBinary => store.latest == latest && store.built == Some(store.head),
        BuildAction::ListSecretKeys | BuildAction::GenerateKey | BuildAction::EncryptAndSign => {
            &&& store.latest == latest
            &&& store.built == Some(store.head)
            &&& store.archive.binary == Some(store.head)
        },
        BuildAction::ReadCommitForRecord => {
            &&& store.latest == latest
            &&& store.built == Some(store.head)
            &&& store.archive.encrypted == Some(store.head)
        },
        BuildAction::WriteArchiveInfo => {
            &&& store.latest == latest
            &&& store.built == Some(store.head)
            &&& store.archive.encrypted == Some(store.head)
            &&& m.commit_sha == store.head
        },
        BuildAction::PublishBinary => {
            &&& store.latest == latest
            &&& store.built == Some(store.head)
            &&& store.archive.encrypted == Some(store.head)
            &&& store.archive.info is Some
            &&& store.archive.info->0.commit_sha == store.head
        },
        BuildAction::PublishEncrypted => {
            &&& store.latest.binary == Some(store.head)
            &&& store.latest.encrypted == latest.encrypted
            &&& store.latest.info == latest.info
            &&& store.archive.encrypted == Some(store.head)
            &&& store.archive.info is Some
            &&& store.archive.info->0.commit_sha == store.head
        },
        BuildAction::PublishInfo => {
            &&& store.latest.binary == Some(store.head)
            &&& store.latest.encrypted == Some(store.head)
            &&& store.archive.info is Some
            &&& store.archive.info->0.commit_sha == store.head
        },
        BuildAction::Finish(r) => match r {
            Ok(_) => store.latest == latest || (store.latest.info is Some
                && store.latest.info->0.commit_sha == store.head && store.latest.encrypted
                == Some(store.head) && store.latest.binary == Some(store.head)),
            Err(e) => e != BuildError::FileCopyingFailed ==> store.latest == latest,
        },
    }
}

proof fn lemma_run_keeps_artifacts_known(
    message: BuildManagerMessage,
    config: Config,
    store: BuildStore,
    outcomes: Seq<OutcomeView>,
    n: int,
)
    requires
        0 <= n,
        honest(BuildManagerView::started(message, config), store, outcomes, n),
    ensures
        artifacts_known(
            run(BuildManagerView::started(message, config), store, outcomes, n).0,
            run(BuildManagerView::started(message, config), store, outcomes, n).1,
            store.latest,
        ),
        run(BuildManagerView::started(message, config), store, outcomes, n).1.head == store.head,
    decreases n,
{
    if n > 0 {
        lemma_run_keeps_artifacts_known(message, config, store, outcomes, n - 1);
    }
}

/// After a successful build the record of the latest build names the commit
/// that the encrypted binary beside it was produced from, provided it did so
/// before the build: a build that publishes replaces both, and a build that
/// finds no new commit replaces neither.
pub proof fn lemma_latest_build_is_coherent(
    message: BuildManagerMessage,
    config: Config,
    store: BuildStore,
    outcomes: Seq<OutcomeView>,
    n: int,
)
    requires
        0 <= n,
        store.latest.coherent(),
        honest(BuildManagerView::started(message, config), store, outcomes, n),
        run(BuildManagerView::started(message, config), store, outcomes, n).0.awaiting
            == BuildAction::Finish(Ok(())),
    ensures
        run(BuildManagerView::started(message, config), store, outcomes, n).1.latest.coherent(),
{
    lemma_run_keeps_artifacts_known(message, config, store, outcomes, n);
}

/// A build that fails on a command leaves the latest build untouched: every
/// command runs before the first artifact is published.
pub proof fn lemma_failed_command_leaves_latest(
    message: BuildManagerMessage,
    config: Config,
    store: BuildStore,
    outcomes: Seq<OutcomeView>,
    n: int,
    error: BuildError,
)
    requires
        0 <= n,
        honest(BuildManagerView::started(message, config), store, outcomes, n),
        run(BuildManagerView::started(message, config), store, outcomes, n).0.awaiting
            == BuildAction::Finish(Err(error)),
        error.of_command(),
    ensures
        run(BuildManagerView::started(message, config), store, outcomes, n).1.latest
            == store.latest,
{
    lemma_run_keeps_artifacts_known(message, config, store, outcomes, n);
}

/// What a build that finds no new commit knows of the store.
pub open spec fn no_new_commit(m: BuildManagerView, store: BuildStore) -> bool {
    &&& store.latest.commit() == store.head
    &&& match m.awaiting {
        BuildAction::EnsureBuildDir
        | BuildAction::CheckRepository
        | BuildAction::GitClone
        | BuildAction::GitPull
        | BuildAction::EnsureLatestDir
        | BuildAction::LookForLatestInfo => true,
        BuildAction::ReadLatestInfo => store.latest.info is Some,
        BuildAction::ReadHeadCommit => m.latest_sha == store.latest.commit(),
        BuildAction::Finish(_) => true,
        _ => false,
    }
}

/// A build with no new commits builds nothing: where the record of the
/// latest build names the commit that the repository is at after the pull,
/// the build only refreshes the repository and looks at the latest build.
/// Nothing is built, the history gets no new entry, and the latest build
/// stays as it was.
pub proof fn lemma_build_without_new_commits_changes_nothing(
    message: BuildManagerMessage,
    config: Config,
    store: BuildStore,
    outcomes: Seq<OutcomeView>,
    n: int,
)
    requires
        0 <= n,
        store.latest.commit() == store.head,
        honest(BuildManagerView::started(message, config), store, outcomes, n),
    ensures
        run(BuildManagerView::started(message, config), store, outcomes, n).1 == store,
        no_new_commit(run(BuildManagerView::started(message, config), store, outcomes, n).0, store),
        run(BuildManagerView::started(message, config), store, outcomes, n).0.awaiting.only_refreshes()
            || run(BuildManagerView::started(message, config), store, outcomes, n).0.awaiting
            is Finish,
    decreases n,
{
    if n > 0 {
        lemma_build_without_new_commits_changes_nothing(message, config, store, outcomes, n - 1);
    }
}

/// With no new commits, an existing repository and a readable record, the
/// build comes to a successful end right after it read the commit.
pub proof fn lemma_build_without_new_commits_ends_well(
    message: BuildManagerMessage,
    config: Config,
    info: BuildInfoView,
)
    requires
        BuildManagerView::started(message, config).awaiting == BuildAction::EnsureBuildDir,
    ensures
        ({
            let m0 = BuildManagerView::started(message, config);
            let m1 = m0.next(OutcomeView::Succeeded);
            let m2 = m1.next(OutcomeView::Exists(true));
            let m3 = m2.next(OutcomeView::Succeeded);
            let m4 = m3.next(OutcomeView::Succeeded);
            let m5 = m4.next(OutcomeView::Exists(true));
            let m6 = m5.next(OutcomeView::Info(info));
            let m7 = m6.next(OutcomeView::Text(info.commit_sha));
            &&& m1.awaiting == BuildAction::CheckRepository
            &&& m2.awaiting == BuildAction::GitPull
            &&& m3.awaiting == BuildAction::EnsureLatestDir
            &&& m4.awaiting == BuildAction::LookForLatestInfo
            &&& m5.awaiting == BuildAction::ReadLatestInfo
            &&& m6.awaiting == BuildAction::ReadHeadCommit
            &&& m7.awaiting == BuildAction::Finish(Ok(()))
        }),
{
}

} // verus!
