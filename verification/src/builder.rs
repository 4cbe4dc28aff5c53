//! Build backend server binary
//!
//! The build manager takes one command at a time: bring the repository of one
//! software up to date and, if it has commits that the latest build does not
//! have, build the binary, sign and encrypt it, archive the three artifacts and
//! publish them as the latest build.

use crate::channel::InProgressChannel;
use crate::config::Config;
use crate::model::{
    BuildInfo,
    BuildInfoView,
    DownloadType,
    SoftwareOptions,
};
use crate::operation::{
    Command,
    CommandView,
    Operation,
    OperationView,
    join_path,
    push_arg,
    spec_join_path,
    texts,
};
use crate::step::{ExitCode, Outcome, OutcomeView};
use crate::text::{chars_of, concat, concat3, optional_text, string_of};
use vstd::prelude::*;

verus! {

/// The GPG key that built binaries are signed with and encrypted to.
pub const GPG_KEY_NAME: &'static str = "app-manager-software-builder";

#[derive(Clone, Copy, Debug, PartialEq, Eq)]
pub enum BuildError {
    SoftwareBuilderConfigMissing,
    ProcessStartFailed,
    ProcessWaitFailed,
    ProcessStdinFailed,
    /// The command ended unsuccessfully, with this exit code.
    CommandFailed(ExitCode),
    InvalidKeyPath,
    FileCopyingFailed,
    FileReadingFailed,
    FileWritingFailed,
    InvalidOutput,
    InvalidInput,
    SendMessageFailed,
}

impl BuildError {
    /// The text of the error.
    pub fn message(&self) -> (r: &'static str)
        ensures
            r@ == (match *self {
                BuildError::SoftwareBuilderConfigMissing => "Software builder config is missing"@,
                BuildError::ProcessStartFailed => "Process start failed"@,
                BuildError::ProcessWaitFailed => "Process wait failed"@,
                BuildError::ProcessStdinFailed => "Process stdin writing failed"@,
                BuildError::CommandFailed(_) => "Command failed with exit status"@,
                BuildError::InvalidKeyPath => "Invalid key path"@,
                BuildError::FileCopyingFailed => "File copying failed"@,
                BuildError::FileReadingFailed => "File reading failed"@,
                BuildError::FileWritingFailed => "File writing failed"@,
                BuildError::InvalidOutput => "Invalid output"@,
                BuildError::InvalidInput => "Invalid input"@,
                BuildError::SendMessageFailed => "Send message failed"@,
            }),
    {
        match self {
            BuildError::SoftwareBuilderConfigMissing => "Software builder config is missing",
            BuildError::ProcessStartFailed => "Process start failed",
            BuildError::ProcessWaitFailed => "Process wait failed",
            BuildError::ProcessStdinFailed => "Process stdin writing failed",
            BuildError::CommandFailed(_) => "Command failed with exit status",
            BuildError::InvalidKeyPath => "Invalid key path",
            BuildError::FileCopyingFailed => "File copying failed",
            BuildError::FileReadingFailed => "File reading failed",
            BuildError::FileWritingFailed => "File writing failed",
            BuildError::InvalidOutput => "Invalid output",
            BuildError::InvalidInput => "Invalid input",
            BuildError::SendMessageFailed => "Send message failed",
        }
    }
}

#[derive(Clone, Copy, Debug, PartialEq, Eq, Structural)]
pub enum BuildManagerMessage {
    BuildNewBackendVersion,
    BuildNewManagerVersion,
}

impl BuildManagerMessage {
    /// The software that the command builds.
    pub open spec fn software(self) -> SoftwareOptions {
        match self {
            BuildManagerMessage::BuildNewBackendVersion => SoftwareOptions::Backend,
            BuildManagerMessage::BuildNewManagerVersion => SoftwareOptions::Manager,
        }
    }

    /// The command that builds `software`.
    pub open spec fn requesting(software: SoftwareOptions) -> BuildManagerMessage {
        match software {
            SoftwareOptions::Manager => BuildManagerMessage::BuildNewManagerVersion,
            SoftwareOptions::Backend => BuildManagerMessage::BuildNewBackendVersion,
        }
    }

    /// The command that builds `software`.
    pub fn build_request(software: SoftwareOptions) -> (r: BuildManagerMessage)
        ensures
            r == Self::requesting(software),
            r.software() == software,
    {
        match software {
            SoftwareOptions::Manager => BuildManagerMessage::BuildNewManagerVersion,
            SoftwareOptions::Backend => BuildManagerMessage::BuildNewBackendVersion,
        }
    }
}

/// Hands the command that builds `software` to the build manager. The
/// command is refused while the build manager is busy with another one.
pub fn send_build_request(
    channel: &mut InProgressChannel<BuildManagerMessage>,
    software: SoftwareOptions,
) -> (r: Result<(), BuildError>)
    requires
        old(channel)@.wf(),
    ensures
        r is Ok <==> old(channel)@.send_result() is Ok,
        r is Err ==> r->Err_0 == BuildError::SendMessageFailed,
        final(channel)@ == old(channel)@.after_send(BuildManagerMessage::requesting(software)),
        final(channel)@.wf(),
{
    let message = BuildManagerMessage::build_request(software);
    match channel.send_message(message) {
        Ok(()) => Ok(()),
        Err(_) => Err(BuildError::SendMessageFailed),
    }
}

/// Whether a path may hold the character: a letter or a digit of ASCII, or
/// one of `-`, `_`, `.` and `/`.
pub open spec fn is_whitelisted(c: char) -> bool {
    ('A' <= c && c <= 'Z') || ('a' <= c && c <= 'z') || ('0' <= c && c <= '9') || c == '-' || c
        == '_' || c == '.' || c == '/'
}

/// Whether a path starts at the root.
pub open spec fn is_absolute(path: Seq<char>) -> bool {
    path.len() > 0 && path[0] == '/'
}

/// Whether a path is accepted as the path of an SSH key: it is absolute and
/// holds whitelisted characters only.
pub open spec fn valid_key_path(path: Seq<char>) -> bool {
    is_absolute(path) && forall|i: int| 0 <= i < path.len() ==> is_whitelisted(#[trigger] path[i])
}

fn char_is_whitelisted(c: char) -> (r: bool)
    ensures
        r == is_whitelisted(c),
{
    (c >= 'A' && c <= 'Z') || (c >= 'a' && c <= 'z') || (c >= '0' && c <= '9') || c == '-' || c
        == '_' || c == '.' || c == '/'
}

/// The characters of `input` that are not whitelisted, in their order.
pub fn whitelist_chars(input: &str) -> (r: String)
    ensures
        r@ == input@.filter(|c: char| !is_whitelisted(c)),
{
    let chars = chars_of(input);
    let mut invalid: Vec<char> = Vec::new();
    let ghost unaccepted = |c: char| !is_whitelisted(c);
    let mut i: usize = 0;
    proof {
        reveal(Seq::filter);
        assert(chars@.take(0) =~= Seq::<char>::empty());
    }
    while i < chars.len()
        invariant
            i <= chars.len(),
            unaccepted == |c: char| !is_whitelisted(c),
            invalid@ == chars@.take(i as int).filter(unaccepted),
        decreases chars.len() - i,
    {
        proof {
            reveal(Seq::filter);
            assert(chars@.take(i + 1).drop_last() == chars@.take(i as int));
        }
        if !char_is_whitelisted(chars[i]) {
            invalid.push(chars[i]);
        }
        i = i + 1;
    }
    proof {
        assert(chars@.take(chars@.len() as int) == chars@);
    }
    string_of(&invalid)
}

/// Accepts the path of an SSH key if it is absolute and made of whitelisted
/// characters only. The path ends up on a command line of SSH, so nothing
/// that could add an argument there may pass.
pub fn validate_path(input: &str) -> (r: Result<(), BuildError>)
    ensures
        r is Ok <==> valid_key_path(input@),
        r is Err ==> r->Err_0 == BuildError::InvalidKeyPath,
{
    let chars = chars_of(input);
    if chars.len() == 0 || chars[0] != '/' {
        return Err(BuildError::InvalidKeyPath);
    }
    let mut i: usize = 0;
    while i < chars.len()
        invariant
            i <= chars.len(),
            chars@ == input@,
            forall|j: int| 0 <= j < i ==> is_whitelisted(#[trigger] chars@[j]),
        decreases chars.len() - i,
    {
        if !char_is_whitelisted(chars[i]) {
            assert(!is_whitelisted(input@[i as int]));
            return Err(BuildError::InvalidKeyPath);
        }
        i = i + 1;
    }
    Ok(())
}

/// The names of the files and directories of the build directory.
pub struct BuildDirCreator;

impl BuildDirCreator {
    /// The build directory of the storage directory `storage_dir`.
    pub fn build_dir(storage_dir: &str) -> (r: String)
        ensures
            r@ == spec_join_path(storage_dir@, "build"@),
    {
        join_path(storage_dir, "build")
    }

    /// The directory that archives every build.
    pub fn history_dir(storage_dir: &str) -> (r: String)
        ensures
            r@ == spec_join_path(spec_join_path(storage_dir@, "build"@), "history"@),
    {
        let build_dir = Self::build_dir(storage_dir);
        join_path(build_dir.as_str(), "history")
    }

    /// The directory that serves the latest build.
    pub fn latest_dir(storage_dir: &str) -> (r: String)
        ensures
            r@ == spec_join_path(spec_join_path(storage_dir@, "build"@), "latest"@),
    {
        let build_dir = Self::build_dir(storage_dir);
        join_path(build_dir.as_str(), "latest")
    }

    pub fn encrypted_binary_name(binary: &str) -> (r: String)
        ensures
            r@ == binary@ + ".gpg"@,
    {
        concat(binary, ".gpg")
    }

    pub fn build_info_json_name(binary: &str) -> (r: String)
        ensures
            r@ == binary@ + ".json"@,
    {
        concat(binary, ".json")
    }

    /// The file of the latest build that a download of `download` for
    /// `software` is served from.
    pub open spec fn data_path(config: Config, software: SoftwareOptions, download: DownloadType) -> Result<
        Seq<char>,
        BuildError,
    > {
        match config.file().software_builder {
            None => Err(BuildError::SoftwareBuilderConfigMissing),
            Some(builder) => {
                let binary = match software {
                    SoftwareOptions::Manager => builder.manager_binary@,
                    SoftwareOptions::Backend => builder.backend_binary@,
                };
                let latest = spec_join_path(
                    spec_join_path(config.file().storage_dir@, "build"@),
                    "latest"@,
                );
                Ok(
                    spec_join_path(
                        latest,
                        match download {
                            DownloadType::EncryptedBinary => binary + ".gpg"@,
                            DownloadType::Info => binary + ".json"@,
                        },
                    ),
                )
            },
        }
    }

    /// Which file to read for a download from this node; an error on a node
    /// that does not build.
    pub fn get_data(config: &Config, software: SoftwareOptions, download: DownloadType) -> (r:
        Result<String, BuildError>)
        ensures
            r is Ok == Self::data_path(*config, software, download) is Ok,
            r is Ok ==> r->Ok_0@ == Self::data_path(*config, software, download)->Ok_0,
            r is Err ==> r->Err_0 == BuildError::SoftwareBuilderConfigMissing,
    {
        match config.software_builder() {
            None => Err(BuildError::SoftwareBuilderConfigMissing),
            Some(builder) => {
                let binary = match software {
                    SoftwareOptions::Manager => builder.manager_binary.as_str(),
                    SoftwareOptions::Backend => builder.backend_binary.as_str(),
                };
                let latest_dir = Self::latest_dir(config.storage_dir());
                let name = match download {
                    DownloadType::EncryptedBinary => Self::encrypted_binary_name(binary),
                    DownloadType::Info => Self::build_info_json_name(binary),
                };
                Ok(join_path(latest_dir.as_str(), name.as_str()))
            },
        }
    }
}

/// What the build manager asks its caller to do.
#[derive(Clone, Copy, Debug, PartialEq, Eq)]
pub enum BuildAction {
    /// Create the build directory if it is missing.
    EnsureBuildDir,
    /// Say whether the repository directory exists.
    CheckRepository,
    /// Clone the repository.
    GitClone,
    /// Pull the branch from its origin.
    GitPull,
    /// Create the directory of the latest build if it is missing.
    EnsureLatestDir,
    /// Say whether the latest build has a record.
    LookForLatestInfo,
    /// Read the record of the latest build.
    ReadLatestInfo,
    /// Print the commit that the repository is at.
    ReadHeadCommit,
    /// Run the pre-build script in the repository.
    RunPreBuildScript,
    /// Build the binary in release mode, at the lowest priority.
    CargoBuild,
    /// Run the built binary for its build information.
    ReadBinaryBuildInfo,
    /// Say what time it is.
    ReadClock,
    /// Create the history directory if it is missing.
    EnsureHistoryDir,
    /// Create the directory that archives this build.
    CreateArchiveDir,
    /// Copy the binary into the archive directory.
    ArchiveBinary,
    /// List the secret keys of GPG.
    ListSecretKeys,
    /// Generate the signing key.
    GenerateKey,
    /// Sign and encrypt the archived binary.
    EncryptAndSign,
    /// Print the commit that the repository is at, for the record.
    ReadCommitForRecord,
    /// Write the record of this build into the archive directory.
    WriteArchiveInfo,
    /// Copy the binary to the latest build.
    PublishBinary,
    /// Copy the encrypted binary to the latest build.
    PublishEncrypted,
    /// Copy the record to the latest build.
    PublishInfo,
    /// Nothing more to do: this is how the command ended.
    Finish(Result<(), BuildError>),
}

/// What follows a copy or a write: `next` if it succeeded, else the end of
/// the build with `error`.
pub open spec fn after_operation(outcome: OutcomeView, next: BuildAction, error: BuildError) -> BuildAction {
    if outcome is Succeeded {
        next
    } else {
        BuildAction::Finish(Err(error))
    }
}

/// The error that a failed run of a command stands for.
pub open spec fn command_error(outcome: OutcomeView) -> BuildError {
    match outcome {
        OutcomeView::Exited(code) => BuildError::CommandFailed(code),
        OutcomeView::Invalid => BuildError::InvalidOutput,
        _ => BuildError::ProcessWaitFailed,
    }
}

/// What follows the run of a command: `next` if it ended successfully, else
/// the end of the build.
pub open spec fn after_process(outcome: OutcomeView, next: BuildAction) -> BuildAction {
    if outcome is Succeeded {
        next
    } else {
        BuildAction::Finish(Err(command_error(outcome)))
    }
}

/// What a build manager holds.
pub struct BuildManagerView {
    /// The action whose outcome the manager waits for.
    pub awaiting: BuildAction,
    /// The software that is built.
    pub software: SoftwareOptions,
    /// A pre-build script is configured.
    pub has_pre_build_script: bool,
    /// The commit of the latest build, empty where there is none.
    pub latest_sha: Seq<char>,
    /// What the built binary printed as its build information.
    pub build_info: Seq<char>,
    /// When this build was archived.
    pub timestamp: Seq<char>,
    /// The commit that goes on record for this build.
    pub commit_sha: Seq<char>,
}

impl BuildManagerView {
    /// The manager as it is, waiting for the outcome of `action`.
    pub open spec fn go(self, action: BuildAction) -> BuildManagerView {
        BuildManagerView { awaiting: action, ..self }
    }

    /// The record of this build.
    pub open spec fn record(self) -> BuildInfoView {
        BuildInfoView {
            commit_sha: self.commit_sha,
            name: self.software.name(),
            timestamp: self.timestamp,
            build_info: self.build_info,
        }
    }

    /// Whether `outcome` is an answer to the action that the manager waits for.
    pub open spec fn answers(self, outcome: OutcomeView) -> bool {
        match self.awaiting {
            BuildAction::EnsureBuildDir
            | BuildAction::EnsureLatestDir
            | BuildAction::EnsureHistoryDir
            | BuildAction::CreateArchiveDir => outcome is Succeeded,
            BuildAction::CheckRepository | BuildAction::LookForLatestInfo => outcome.of_check(),
            BuildAction::GitClone
            | BuildAction::GitPull
            | BuildAction::RunPreBuildScript
            | BuildAction::CargoBuild
            | BuildAction::GenerateKey
            | BuildAction::EncryptAndSign => outcome.of_process(),
            BuildAction::ReadLatestInfo => outcome.of_record_read(),
            BuildAction::ReadHeadCommit
            | BuildAction::ReadBinaryBuildInfo
            | BuildAction::ListSecretKeys
            | BuildAction::ReadCommitForRecord => outcome.of_captured_process(),
            BuildAction::ReadClock => outcome is Text,
            BuildAction::ArchiveBinary
            | BuildAction::WriteArchiveInfo
            | BuildAction::PublishBinary
            | BuildAction::PublishEncrypted
            | BuildAction::PublishInfo => outcome.of_operation(),
            BuildAction::Finish(_) => false,
        }
    }

    /// What follows once the repository is known to have new commits.
    pub open spec fn build_entry(self) -> BuildAction {
        if self.has_pre_build_script {
            BuildAction::RunPreBuildScript
        } else {
            BuildAction::CargoBuild
        }
    }

    /// The manager after it was told `outcome`; the action it asks for next is
    /// the one it then waits for.
    pub open spec fn next(self, outcome: OutcomeView) -> BuildManagerView {
        match self.awaiting {
            BuildAction::EnsureBuildDir => self.go(BuildAction::CheckRepository),
            BuildAction::CheckRepository => self.go(
                if outcome == OutcomeView::Exists(true) {
                    BuildAction::GitPull
                } else {
                    BuildAction::GitClone
                },
            ),
            BuildAction::GitClone => self.go(after_process(outcome, BuildAction::GitPull)),
            BuildAction::GitPull => self.go(after_process(outcome, BuildAction::EnsureLatestDir)),
            BuildAction::EnsureLatestDir => self.go(BuildAction::LookForLatestInfo),
            BuildAction::LookForLatestInfo => if outcome == OutcomeView::Exists(true) {
                self.go(BuildAction::ReadLatestInfo)
            } else {
                BuildManagerView {
                    awaiting: BuildAction::ReadHeadCommit,
                    latest_sha: Seq::empty(),
                    ..self
                }
            },
            BuildAction::ReadLatestInfo => match outcome {
                OutcomeView::Info(info) => BuildManagerView {
                    awaiting: BuildAction::ReadHeadCommit,
                    latest_sha: info.commit_sha,
                    ..self
                },
                OutcomeView::Invalid => self.go(BuildAction::Finish(Err(BuildError::InvalidInput))),
                _ => self.go(BuildAction::Finish(Err(BuildError::FileReadingFailed))),
            },
            BuildAction::ReadHeadCommit => match outcome {
                OutcomeView::Text(sha) => self.go(
                    if self.latest_sha == sha {
                        BuildAction::Finish(Ok(()))
                    } else {
                        self.build_entry()
                    },
                ),
                _ => self.go(BuildAction::Finish(Err(command_error(outcome)))),
            },
            BuildAction::RunPreBuildScript => self.go(
                after_process(outcome, BuildAction::CargoBuild),
            ),
            BuildAction::CargoBuild => self.go(
                after_process(outcome, BuildAction::ReadBinaryBuildInfo),
            ),
            BuildAction::ReadBinaryBuildInfo => match outcome {
                OutcomeView::Text(text) => BuildManagerView {
                    awaiting: BuildAction::ReadClock,
                    build_info: text,
                    ..self
                },
                _ => self.go(BuildAction::Finish(Err(command_error(outcome)))),
            },
            BuildAction::ReadClock => match outcome {
                OutcomeView::Text(text) => BuildManagerView {
                    awaiting: BuildAction::EnsureHistoryDir,
                    timestamp: text,
                    ..self
                },
                _ => self,
            },
            BuildAction::EnsureHistoryDir => self.go(BuildAction::CreateArchiveDir),
            BuildAction::CreateArchiveDir => self.go(BuildAction::ArchiveBinary),
            BuildAction::ArchiveBinary => self.go(
                after_operation(
                    outcome,
                    BuildAction::ListSecretKeys,
                    BuildError::FileCopyingFailed,
                ),
            ),
            BuildAction::ListSecretKeys => match outcome {
                OutcomeView::Text(text) => self.go(
                    if text.len() == 0 {
                        BuildAction::GenerateKey
                    } else {
                        BuildAction::EncryptAndSign
                    },
                ),
                OutcomeView::Invalid => self.go(BuildAction::EncryptAndSign),
                _ => self.go(BuildAction::Finish(Err(command_error(outcome)))),
            },
            BuildAction::GenerateKey => self.go(
                after_process(outcome, BuildAction::EncryptAndSign),
            ),
            BuildAction::EncryptAndSign => self.go(
                after_process(outcome, BuildAction::ReadCommitForRecord),
            ),
            BuildAction::ReadCommitForRecord => match outcome {
                OutcomeView::Text(sha) => BuildManagerView {
                    awaiting: BuildAction::WriteArchiveInfo,
                    commit_sha: sha,
                    ..self
                },
                _ => self.go(BuildAction::Finish(Err(command_error(outcome)))),
            },
            BuildAction::WriteArchiveInfo => self.go(
                after_operation(
                    outcome,
                    BuildAction::PublishBinary,
                    BuildError::FileWritingFailed,
                ),
            ),
            BuildAction::PublishBinary => self.go(
                after_operation(
                    outcome,
                    BuildAction::PublishEncrypted,
                    BuildError::FileCopyingFailed,
                ),
            ),
            BuildAction::PublishEncrypted => self.go(
                after_operation(
                    outcome,
                    BuildAction::PublishInfo,
                    BuildError::FileCopyingFailed,
                ),
            ),
            BuildAction::PublishInfo => self.go(
                after_operation(
                    outcome,
                    BuildAction::Finish(Ok(())),
                    BuildError::FileCopyingFailed,
                ),
            ),
            BuildAction::Finish(_) => self,
        }
    }

    /// The key path that the configuration names for `software`, if any.
    pub open spec fn key_path(config: Config, software: SoftwareOptions) -> Option<Seq<char>> {
        match config.file().software_builder {
            None => None,
            Some(builder) => match software {
                SoftwareOptions::Manager => optional_text(builder.manager_download_key_path),
                SoftwareOptions::Backend => optional_text(builder.backend_download_key_path),
            },
        }
    }

    /// The manager that starts on `message` under the given configuration. A
    /// node without a builder section builds nothing, and neither does one
    /// whose key path is not accepted.
    pub open spec fn started(message: BuildManagerMessage, config: Config) -> BuildManagerView {
        let software = message.software();
        let builder = config.file().software_builder;
        let key = Self::key_path(config, software);
        BuildManagerView {
            awaiting: if builder is None {
                BuildAction::Finish(Err(BuildError::SoftwareBuilderConfigMissing))
            } else if key is Some && !valid_key_path(key->0) {
                BuildAction::Finish(Err(BuildError::InvalidKeyPath))
            } else {
                BuildAction::EnsureBuildDir
            },
            software,
            has_pre_build_script: builder is Some && (match software {
                SoftwareOptions::Manager => builder->0.manager_pre_build_script is Some,
                SoftwareOptions::Backend => builder->0.backend_pre_build_script is Some,
            }),
            latest_sha: Seq::empty(),
            build_info: Seq::empty(),
            timestamp: Seq::empty(),
            commit_sha: Seq::empty(),
        }
    }
}

/// Decides, step by step, how one build command is carried out.
pub struct BuildManager {
    awaiting: BuildAction,
    software: SoftwareOptions,
    has_pre_build_script: bool,
    latest_sha: String,
    build_info: String,
    timestamp: String,
    commit_sha: String,
}

impl View for BuildManager {
    type V = BuildManagerView;

    closed spec fn view(&self) -> BuildManagerView {
        BuildManagerView {
            awaiting: self.awaiting,
            software: self.software,
            has_pre_build_script: self.has_pre_build_script,
            latest_sha: self.latest_sha@,
            build_info: self.build_info@,
            timestamp: self.timestamp@,
            commit_sha: self.commit_sha@,
        }
    }
}

fn command_failure(outcome: &Outcome) -> (r: BuildError)
    ensures
        r == command_error(outcome@),
{
    match outcome {
        Outcome::Exited(code) => BuildError::CommandFailed(*code),
        Outcome::Invalid => BuildError::InvalidOutput,
        _ => BuildError::ProcessWaitFailed,
    }
}

fn operation_done(outcome: &Outcome, next: BuildAction, error: BuildError) -> (r: BuildAction)
    ensures
        r == after_operation(outcome@, next, error),
{
    match outcome {
        Outcome::Succeeded => next,
        _ => BuildAction::Finish(Err(error)),
    }
}

fn process_done(outcome: &Outcome, next: BuildAction) -> (r: BuildAction)
    ensures
        r == after_process(outcome@, next),
{
    match outcome {
        Outcome::Succeeded => next,
        _ => BuildAction::Finish(Err(command_failure(outcome))),
    }
}

fn is_found(outcome: &Outcome) -> (r: bool)
    ensures
        r == (outcome@ == OutcomeView::Exists(true)),
{
    match outcome {
        Outcome::Exists(true) => true,
        _ => false,
    }
}

impl BuildManager {
    /// Starts the handling of `message`.
    pub fn handle_message(message: BuildManagerMessage, config: &Config) -> (r: BuildManager)
        ensures
            r@ == BuildManagerView::started(message, *config),
    {
        let software = match message {
            BuildManagerMessage::BuildNewBackendVersion => SoftwareOptions::Backend,
            BuildManagerMessage::BuildNewManagerVersion => SoftwareOptions::Manager,
        };
        let mut awaiting = BuildAction::EnsureBuildDir;
        let mut has_pre_build_script = false;
        match config.software_builder() {
            None => {
                awaiting = BuildAction::Finish(Err(BuildError::SoftwareBuilderConfigMissing));
            },
            Some(builder) => {
                let (key, script) = match software {
                    SoftwareOptions::Manager => (
                        &builder.manager_download_key_path,
                        &builder.manager_pre_build_script,
                    ),
                    SoftwareOptions::Backend => (
                        &builder.backend_download_key_path,
                        &builder.backend_pre_build_script,
                    ),
                };
                has_pre_build_script = script.is_some();
                match key {
                    Some(path) => {
                        if validate_path(path.as_str()).is_err() {
                            awaiting = BuildAction::Finish(Err(BuildError::InvalidKeyPath));
                        }
                    },
                    None => {},
                }
            },
        }
        BuildManager {
            awaiting,
            software,
            has_pre_build_script,
            latest_sha: String::new(),
            build_info: String::new(),
            timestamp: String::new(),
            commit_sha: String::new(),
        }
    }

    /// The action whose outcome the manager waits for.
    pub fn awaiting(&self) -> (r: BuildAction)
        ensures
            r == self@.awaiting,
    {
        self.awaiting
    }

    /// The software that is built.
    pub fn software_options(&self) -> (r: SoftwareOptions)
        ensures
            r == self@.software,
    {
        self.software
    }

    /// The record of this build, complete once the commit was read for it.
    pub fn record(&self) -> (r: BuildInfo)
        ensures
            r@ == self@.record(),
    {
        BuildInfo {
            commit_sha: self.commit_sha.clone(),
            name: String::from_str(self.software.to_str()),
            timestamp: self.timestamp.clone(),
            build_info: self.build_info.clone(),
        }
    }

    /// Whether `outcome` is an answer to the action that the manager waits for.
    pub fn accepts(&self, outcome: &Outcome) -> (r: bool)
        ensures
            r == self@.answers(outcome@),
    {
        match self.awaiting {
            BuildAction::EnsureBuildDir
            | BuildAction::EnsureLatestDir
            | BuildAction::EnsureHistoryDir
            | BuildAction::CreateArchiveDir => match outcome {
                Outcome::Succeeded => true,
                _ => false,
            },
            BuildAction::CheckRepository | BuildAction::LookForLatestInfo => outcome.of_check(),
            BuildAction::GitClone
            | BuildAction::GitPull
            | BuildAction::RunPreBuildScript
            | BuildAction::CargoBuild
            | BuildAction::GenerateKey
            | BuildAction::EncryptAndSign => outcome.of_process(),
            BuildAction::ReadLatestInfo => outcome.of_record_read(),
            BuildAction::ReadHeadCommit
            | BuildAction::ReadBinaryBuildInfo
            | BuildAction::ListSecretKeys
            | BuildAction::ReadCommitForRecord => outcome.of_captured_process(),
            BuildAction::ReadClock => match outcome {
                Outcome::Text(_) => true,
                _ => false,
            },
            BuildAction::ArchiveBinary
            | BuildAction::WriteArchiveInfo
            | BuildAction::PublishBinary
            | BuildAction::PublishEncrypted
            | BuildAction::PublishInfo => outcome.of_operation(),
            BuildAction::Finish(_) => false,
        }
    }

    fn build_entry(&self) -> (r: BuildAction)
        ensures
            r == self@.build_entry(),
    {
        if self.has_pre_build_script {
            BuildAction::RunPreBuildScript
        } else {
            BuildAction::CargoBuild
        }
    }

    /// Takes the outcome of the action asked for last and answers with the
    /// next action.
    pub fn step(&mut self, outcome: Outcome) -> (action: BuildAction)
        requires
            old(self)@.answers(outcome@),
        ensures
            final(self)@ == old(self)@.next(outcome@),
            action == final(self)@.awaiting,
    {
        let action = match self.awaiting {
            BuildAction::EnsureBuildDir => BuildAction::CheckRepository,
            BuildAction::CheckRepository => {
                if is_found(&outcome) {
                    BuildAction::GitPull
                } else {
                    BuildAction::GitClone
                }
            },
            BuildAction::GitClone => process_done(&outcome, BuildAction::GitPull),
            BuildAction::GitPull => process_done(&outcome, BuildAction::EnsureLatestDir),
            BuildAction::EnsureLatestDir => BuildAction::LookForLatestInfo,
            BuildAction::LookForLatestInfo => {
                if is_found(&outcome) {
                    BuildAction::ReadLatestInfo
                } else {
                    self.latest_sha = String::new();
                    BuildAction::ReadHeadCommit
                }
            },
            BuildAction::ReadLatestInfo => match outcome {
                Outcome::Info(info) => {
                    self.latest_sha = info.commit_sha;
                    BuildAction::ReadHeadCommit
                },
                Outcome::Invalid => BuildAction::Finish(Err(BuildError::InvalidInput)),
                _ => BuildAction::Finish(Err(BuildError::FileReadingFailed)),
            },
            BuildAction::ReadHeadCommit => match outcome {
                Outcome::Text(sha) => {
                    if self.latest_sha == sha {
                        BuildAction::Finish(Ok(()))
                    } else {
                        self.build_entry()
                    }
                },
                _ => BuildAction::Finish(Err(command_failure(&outcome))),
            },
            BuildAction::RunPreBuildScript => process_done(&outcome, BuildAction::CargoBuild),
            BuildAction::CargoBuild => process_done(&outcome, BuildAction::ReadBinaryBuildInfo),
            BuildAction::ReadBinaryBuildInfo => match outcome {
                Outcome::Text(text) => {
                    self.build_info = text;
                    BuildAction::ReadClock
                },
                _ => BuildAction::Finish(Err(command_failure(&outcome))),
            },
            BuildAction::ReadClock => match outcome {
                Outcome::Text(text) => {
                    self.timestamp = text;
                    BuildAction::EnsureHistoryDir
                },
                _ => BuildAction::ReadClock,
            },
            BuildAction::EnsureHistoryDir => BuildAction::CreateArchiveDir,
            BuildAction::CreateArchiveDir => BuildAction::ArchiveBinary,
            BuildAction::ArchiveBinary => operation_done(
                &outcome,
                BuildAction::ListSecretKeys,
                BuildError::FileCopyingFailed,
            ),
            BuildAction::ListSecretKeys => match outcome {
                Outcome::Text(text) => {
                    if text.as_str().unicode_len() == 0 {
                        BuildAction::GenerateKey
                    } else {
                        BuildAction::EncryptAndSign
                    }
                },
                Outcome::Invalid => BuildAction::EncryptAndSign,
                _ => BuildAction::Finish(Err(command_failure(&outcome))),
            },
            BuildAction::GenerateKey => process_done(&outcome, BuildAction::EncryptAndSign),
            BuildAction::EncryptAndSign => process_done(
                &outcome,
                BuildAction::ReadCommitForRecord,
            ),
            BuildAction::ReadCommitForRecord => match outcome {
                Outcome::Text(sha) => {
                    self.commit_sha = sha;
                    BuildAction::WriteArchiveInfo
                },
                _ => BuildAction::Finish(Err(command_failure(&outcome))),
            },
            BuildAction::WriteArchiveInfo => operation_done(
                &outcome,
                BuildAction::PublishBinary,
                BuildError::FileWritingFailed,
            ),
            BuildAction::PublishBinary => operation_done(
                &outcome,
                BuildAction::PublishEncrypted,
                BuildError::FileCopyingFailed,
            ),
            BuildAction::PublishEncrypted => operation_done(
                &outcome,
                BuildAction::PublishInfo,
                BuildError::FileCopyingFailed,
            ),
            BuildAction::PublishInfo => operation_done(
                &outcome,
                BuildAction::Finish(Ok(())),
                BuildError::FileCopyingFailed,
            ),
            BuildAction::Finish(r) => BuildAction::Finish(r),
        };
        self.awaiting = action;
        action
    }
}

/// What the build of one software works on, as the configuration has it.
#[derive(Debug)]
pub struct BuildPaths {
    /// The build directory.
    pub build_dir: String,
    /// The directory of the repository.
    pub repository: String,
    /// The directory that serves the latest build.
    pub latest_dir: String,
    /// The directory that archives every build.
    pub history_dir: String,
    /// The name of the repository: that of the software.
    pub repository_name: String,
    /// Where the repository is cloned from.
    pub address: String,
    /// The branch that is built.
    pub branch: String,
    /// The name of the binary.
    pub binary: String,
    /// Where the build leaves the binary.
    pub built_binary: String,
    /// The SSH key that the clone uses.
    pub download_key: Option<String>,
    /// The script that runs before the build.
    pub pre_build_script: Option<String>,
}

/// The texts of [`BuildPaths`].
pub struct BuildPathsView {
    pub build_dir: Seq<char>,
    pub repository: Seq<char>,
    pub latest_dir: Seq<char>,
    pub history_dir: Seq<char>,
    pub repository_name: Seq<char>,
    pub address: Seq<char>,
    pub branch: Seq<char>,
    pub binary: Seq<char>,
    pub built_binary: Seq<char>,
    pub download_key: Option<Seq<char>>,
    pub pre_build_script: Option<Seq<char>>,
}

impl View for BuildPaths {
    type V = BuildPathsView;

    open spec fn view(&self) -> BuildPathsView {
        BuildPathsView {
            build_dir: self.build_dir@,
            repository: self.repository@,
            latest_dir: self.latest_dir@,
            history_dir: self.history_dir@,
            repository_name: self.repository_name@,
            address: self.address@,
            branch: self.branch@,
            binary: self.binary@,
            built_binary: self.built_binary@,
            download_key: optional_text(self.download_key),
            pre_build_script: optional_text(self.pre_build_script),
        }
    }
}

/// The files of one build: its archive directory and the three artifacts
/// there and in the latest build.
#[derive(Debug)]
pub struct BuildFiles {
    pub archive_dir: String,
    pub archived_binary: String,
    pub archived_encrypted: String,
    pub archived_info: String,
    pub latest_binary: String,
    pub latest_encrypted: String,
    pub latest_info: String,
}

/// The texts of [`BuildFiles`].
pub struct BuildFilesView {
    pub archive_dir: Seq<char>,
    pub archived_binary: Seq<char>,
    pub archived_encrypted: Seq<char>,
    pub archived_info: Seq<char>,
    pub latest_binary: Seq<char>,
    pub latest_encrypted: Seq<char>,
    pub latest_info: Seq<char>,
}

impl View for BuildFiles {
    type V = BuildFilesView;

    open spec fn view(&self) -> BuildFilesView {
        BuildFilesView {
            archive_dir: self.archive_dir@,
            archived_binary: self.archived_binary@,
            archived_encrypted: self.archived_encrypted@,
            archived_info: self.archived_info@,
            latest_binary: self.latest_binary@,
            latest_encrypted: self.latest_encrypted@,
            latest_info: self.latest_info@,
        }
    }
}

impl BuildPathsView {
    /// What a build of `software` works on under `config`; nothing on a node
    /// without a builder section. The repository lies in the build directory
    /// under the name of the software, and the build leaves the binary in its
    /// `target/release`.
    pub open spec fn of(config: Config, software: SoftwareOptions) -> Option<BuildPathsView> {
        match config.file().software_builder {
            None => None,
            Some(builder) => {
                let build_dir = spec_join_path(config.file().storage_dir@, "build"@);
                let repository = spec_join_path(build_dir, software.name());
                let binary = match software {
                    SoftwareOptions::Manager => builder.manager_binary@,
                    SoftwareOptions::Backend => builder.backend_binary@,
                };
                Some(
                    BuildPathsView {
                        build_dir,
                        repository,
                        latest_dir: spec_join_path(build_dir, "latest"@),
                        history_dir: spec_join_path(build_dir, "history"@),
                        repository_name: software.name(),
                        address: match software {
                            SoftwareOptions::Manager => builder.manager_download_git_address@,
                            SoftwareOptions::Backend => builder.backend_download_git_address@,
                        },
                        branch: match software {
                            SoftwareOptions::Manager => builder.manager_branch@,
                            SoftwareOptions::Backend => builder.backend_branch@,
                        },
                        binary,
                        built_binary: spec_join_path(
                            spec_join_path(spec_join_path(repository, "target"@), "release"@),
                            binary,
                        ),
                        download_key: match software {
                            SoftwareOptions::Manager => optional_text(
                                builder.manager_download_key_path,
                            ),
                            SoftwareOptions::Backend => optional_text(
                                builder.backend_download_key_path,
                            ),
                        },
                        pre_build_script: match software {
                            SoftwareOptions::Manager => optional_text(
                                builder.manager_pre_build_script,
                            ),
                            SoftwareOptions::Backend => optional_text(
                                builder.backend_pre_build_script,
                            ),
                        },
                    },
                )
            },
        }
    }

    /// The files of the build that was archived at `timestamp`. The archive
    /// directory is named after the repository and the time; the artifacts
    /// are named after the binary.
    pub open spec fn files(self, timestamp: Seq<char>) -> BuildFilesView {
        let archive_dir = spec_join_path(
            self.history_dir,
            self.repository_name + "-"@ + timestamp,
        );
        BuildFilesView {
            archive_dir,
            archived_binary: spec_join_path(archive_dir, self.binary),
            archived_encrypted: spec_join_path(archive_dir, self.binary + ".gpg"@),
            archived_info: spec_join_path(archive_dir, self.binary + ".json"@),
            latest_binary: spec_join_path(self.latest_dir, self.binary),
            latest_encrypted: spec_join_path(self.latest_dir, self.binary + ".gpg"@),
            latest_info: spec_join_path(self.latest_dir, self.binary + ".json"@),
        }
    }

    /// The command line that clones the repository. With a key, SSH is told
    /// to use it.
    pub open spec fn clone_command(self) -> CommandView {
        CommandView::plain(
            "git"@,
            seq!["clone"@] + (match self.download_key {
                Some(key) => seq!["-c"@, "core.sshCommand=ssh -i "@ + key],
                None => Seq::<Seq<char>>::empty(),
            }) + seq!["-b"@, self.branch, self.address, self.repository],
        )
    }

    /// The command line that pulls the branch.
    pub open spec fn pull_command(self) -> CommandView {
        CommandView::plain("git"@, seq!["-C"@, self.repository, "pull"@, "origin"@, self.branch])
    }

    /// The command line that prints the commit that the repository is at.
    pub open spec fn head_command(self) -> CommandView {
        CommandView::plain("git"@, seq!["-C"@, self.repository, "rev-parse"@, "HEAD"@])
    }

    /// The command line that builds the binary.
    pub open spec fn build_command(self) -> CommandView {
        CommandView::within(
            self.repository,
            "nice"@,
            seq!["-n"@, "19"@, "cargo"@, "build"@, "--bin"@, self.binary, "--release"@],
        )
    }

    /// The command line that signs and encrypts the archived binary.
    pub open spec fn sign_command(self, files: BuildFilesView) -> CommandView {
        CommandView::within(
            files.archive_dir,
            "gpg"@,
            seq![
                "--output"@,
                files.archived_encrypted,
                "--encrypt"@,
                "--recipient"@,
                GPG_KEY_NAME@,
                "--sign"@,
                self.binary,
            ],
        )
    }
}

/// The command line that generates the signing key.
pub open spec fn spec_generate_key_command() -> CommandView {
    CommandView::plain(
        "gpg"@,
        seq![
            "--batch"@,
            "--passphrase"@,
            ""@,
            "--quick-generate-key"@,
            GPG_KEY_NAME@,
            "default"@,
            "default"@,
            "none"@,
        ],
    )
}

fn clone_of(text: &Option<String>) -> (r: Option<String>)
    ensures
        optional_text(r) == optional_text(*text),
{
    match text {
        Some(t) => Some(t.clone()),
        None => None,
    }
}

impl BuildPaths {
    /// What a build of `software` works on under `config`.
    pub fn new(config: &Config, software: SoftwareOptions) -> (r: Option<BuildPaths>)
        ensures
            r is Some == BuildPathsView::of(*config, software) is Some,
            r is Some ==> r->0@ == BuildPathsView::of(*config, software)->0,
    {
        match config.software_builder() {
            None => None,
            Some(builder) => {
                let build_dir = BuildDirCreator::build_dir(config.storage_dir());
                let repository = join_path(build_dir.as_str(), software.to_str());
                let binary = match software {
                    SoftwareOptions::Manager => builder.manager_binary.clone(),
                    SoftwareOptions::Backend => builder.backend_binary.clone(),
                };
                let target = join_path(repository.as_str(), "target");
                let release = join_path(target.as_str(), "release");
                Some(
                    BuildPaths {
                        latest_dir: join_path(build_dir.as_str(), "latest"),
                        history_dir: join_path(build_dir.as_str(), "history"),
                        repository_name: String::from_str(software.to_str()),
                        address: match software {
                            SoftwareOptions::Manager => builder.manager_download_git_address.clone(),
                            SoftwareOptions::Backend => builder.backend_download_git_address.clone(),
                        },
                        branch: match software {
                            SoftwareOptions::Manager => builder.manager_branch.clone(),
                            SoftwareOptions::Backend => builder.backend_branch.clone(),
                        },
                        built_binary: join_path(release.as_str(), binary.as_str()),
                        binary,
                        download_key: match software {
                            SoftwareOptions::Manager => clone_of(
                                &builder.manager_download_key_path,
                            ),
                            SoftwareOptions::Backend => clone_of(
                                &builder.backend_download_key_path,
                            ),
                        },
                        pre_build_script: match software {
                            SoftwareOptions::Manager => clone_of(&builder.manager_pre_build_script),
                            SoftwareOptions::Backend => clone_of(&builder.backend_pre_build_script),
                        },
                        build_dir,
                        repository,
                    },
                )
            },
        }
    }

    /// The files of the build that was archived at `timestamp`.
    pub fn files(&self, timestamp: &str) -> (r: BuildFiles)
        ensures
            r@ == self@.files(timestamp@),
    {
        let archive_name = concat3(self.repository_name.as_str(), "-", timestamp);
        let archive_dir = join_path(self.history_dir.as_str(), archive_name.as_str());
        let encrypted_name = BuildDirCreator::encrypted_binary_name(self.binary.as_str());
        let info_name = BuildDirCreator::build_info_json_name(self.binary.as_str());
        BuildFiles {
            archived_binary: join_path(archive_dir.as_str(), self.binary.as_str()),
            archived_encrypted: join_path(archive_dir.as_str(), encrypted_name.as_str()),
            archived_info: join_path(archive_dir.as_str(), info_name.as_str()),
            latest_binary: join_path(self.latest_dir.as_str(), self.binary.as_str()),
            latest_encrypted: join_path(self.latest_dir.as_str(), encrypted_name.as_str()),
            latest_info: join_path(self.latest_dir.as_str(), info_name.as_str()),
            archive_dir,
        }
    }

    /// The command line that clones the repository.
    pub fn clone_command(&self) -> (r: Command)
        ensures
            r@ == self@.clone_command(),
    {
        let mut args: Vec<String> = Vec::new();
        assert(texts(args@) =~= Seq::<Seq<char>>::empty());
        push_arg(&mut args, "clone");
        match &self.download_key {
            Some(key) => {
                push_arg(&mut args, "-c");
                let option = concat("core.sshCommand=ssh -i ", key.as_str());
                push_arg(&mut args, option.as_str());
            },
            None => {},
        }
        push_arg(&mut args, "-b");
        push_arg(&mut args, self.branch.as_str());
        push_arg(&mut args, self.address.as_str());
        push_arg(&mut args, self.repository.as_str());
        assert(texts(args@) =~= self@.clone_command().args);
        Command::plain("git", args)
    }

    /// The command line that pulls the branch.
    pub fn pull_command(&self) -> (r: Command)
        ensures
            r@ == self@.pull_command(),
    {
        let mut args: Vec<String> = Vec::new();
        assert(texts(args@) =~= Seq::<Seq<char>>::empty());
        push_arg(&mut args, "-C");
        push_arg(&mut args, self.repository.as_str());
        push_arg(&mut args, "pull");
        push_arg(&mut args, "origin");
        push_arg(&mut args, self.branch.as_str());
        assert(texts(args@) =~= self@.pull_command().args);
        Command::plain("git", args)
    }

    /// The command line that prints the commit that the repository is at.
    pub fn head_command(&self) -> (r: Command)
        ensures
            r@ == self@.head_command(),
    {
        let mut args: Vec<String> = Vec::new();
        assert(texts(args@) =~= Seq::<Seq<char>>::empty());
        push_arg(&mut args, "-C");
        push_arg(&mut args, self.repository.as_str());
        push_arg(&mut args, "rev-parse");
        push_arg(&mut args, "HEAD");
        assert(texts(args@) =~= self@.head_command().args);
        Command::plain("git", args)
    }

    /// The command line that builds the binary.
    pub fn build_command(&self) -> (r: Command)
        ensures
            r@ == self@.build_command(),
    {
        let mut args: Vec<String> = Vec::new();
        assert(texts(args@) =~= Seq::<Seq<char>>::empty());
        push_arg(&mut args, "-n");
        push_arg(&mut args, "19");
        push_arg(&mut args, "cargo");
        push_arg(&mut args, "build");
        push_arg(&mut args, "--bin");
        push_arg(&mut args, self.binary.as_str());
        push_arg(&mut args, "--release");
        assert(texts(args@) =~= self@.build_command().args);
        Command::within(self.repository.as_str(), "nice", args)
    }

    /// The command line that signs and encrypts the archived binary.
    pub fn sign_command(&self, files: &BuildFiles) -> (r: Command)
        ensures
            r@ == self@.sign_command(files@),
    {
        let mut args: Vec<String> = Vec::new();
        assert(texts(args@) =~= Seq::<Seq<char>>::empty());
        push_arg(&mut args, "--output");
        push_arg(&mut args, files.archived_encrypted.as_str());
        push_arg(&mut args, "--encrypt");
        push_arg(&mut args, "--recipient");
        push_arg(&mut args, GPG_KEY_NAME);
        push_arg(&mut args, "--sign");
        push_arg(&mut args, self.binary.as_str());
        assert(texts(args@) =~= self@.sign_command(files@).args);
        Command::within(files.archive_dir.as_str(), "gpg", args)
    }
}

/// The command line that generates the signing key.
pub fn generate_key_command() -> (r: Command)
    ensures
        r@ == spec_generate_key_command(),
{
    let mut args: Vec<String> = Vec::new();
    assert(texts(args@) =~= Seq::<Seq<char>>::empty());
    push_arg(&mut args, "--batch");
    push_arg(&mut args, "--passphrase");
    push_arg(&mut args, "");
    push_arg(&mut args, "--quick-generate-key");
    push_arg(&mut args, GPG_KEY_NAME);
    push_arg(&mut args, "default");
    push_arg(&mut args, "default");
    push_arg(&mut args, "none");
    assert(texts(args@) =~= spec_generate_key_command().args);
    Command::plain("gpg", args)
}

/// The one-word argument list.
fn one_arg(word: &str) -> (r: Vec<String>)
    ensures
        texts(r@) == seq![word@],
{
    let mut args: Vec<String> = Vec::new();
    assert(texts(args@) =~= Seq::<Seq<char>>::empty());
    push_arg(&mut args, word);
    assert(texts(args@) =~= seq![word@]);
    args
}

fn two_args(first: &str, second: &str) -> (r: Vec<String>)
    ensures
        texts(r@) == seq![first@, second@],
{
    let mut args: Vec<String> = Vec::new();
    assert(texts(args@) =~= Seq::<Seq<char>>::empty());
    push_arg(&mut args, first);
    push_arg(&mut args, second);
    assert(texts(args@) =~= seq![first@, second@]);
    args
}

impl BuildManagerView {
    /// What the action that the manager waits for means on the given paths:
    /// which file to touch and which command to run. There is none once the
    /// command has ended.
    pub open spec fn operation(self, paths: BuildPathsView) -> Option<OperationView> {
        let files = paths.files(self.timestamp);
        match self.awaiting {
            BuildAction::EnsureBuildDir => Some(
                OperationView::CreateDirIfMissing { path: paths.build_dir },
            ),
            BuildAction::CheckRepository => Some(
                OperationView::PathExists { path: paths.repository },
            ),
            BuildAction::GitClone => Some(OperationView::Run { command: paths.clone_command() }),
            BuildAction::GitPull => Some(OperationView::Run { command: paths.pull_command() }),
            BuildAction::EnsureLatestDir => Some(
                OperationView::CreateDirIfMissing { path: paths.latest_dir },
            ),
            BuildAction::LookForLatestInfo => Some(
                OperationView::PathExists { path: files.latest_info },
            ),
            BuildAction::ReadLatestInfo => Some(
                OperationView::ReadBuildInfo { path: files.latest_info },
            ),
            BuildAction::ReadHeadCommit | BuildAction::ReadCommitForRecord => Some(
                OperationView::RunCaptured { command: paths.head_command() },
            ),
            BuildAction::RunPreBuildScript => match paths.pre_build_script {
                Some(script) => Some(
                    OperationView::Run {
                        command: CommandView::within(
                            paths.repository,
                            "/bin/bash"@,
                            seq!["-eux"@, script],
                        ),
                    },
                ),
                None => None,
            },
            BuildAction::CargoBuild => Some(OperationView::Run { command: paths.build_command() }),
            BuildAction::ReadBinaryBuildInfo => Some(
                OperationView::RunCaptured {
                    command: CommandView::within(
                        paths.repository,
                        paths.built_binary,
                        seq!["--build-info"@],
                    ),
                },
            ),
            BuildAction::ReadClock => Some(OperationView::ReadClock),
            BuildAction::EnsureHistoryDir => Some(
                OperationView::CreateDirIfMissing { path: paths.history_dir },
            ),
            BuildAction::CreateArchiveDir => Some(
                OperationView::CreateDirIfMissing { path: files.archive_dir },
            ),
            BuildAction::ArchiveBinary => Some(
                OperationView::CopyFile { from: paths.built_binary, to: files.archived_binary },
            ),
            BuildAction::ListSecretKeys => Some(
                OperationView::RunCaptured {
                    command: CommandView::plain("gpg"@, seq!["--list-secret-keys"@]),
                },
            ),
            BuildAction::GenerateKey => Some(
                OperationView::Run { command: spec_generate_key_command() },
            ),
            BuildAction::EncryptAndSign => Some(
                OperationView::Run { command: paths.sign_command(files) },
            ),
            BuildAction::WriteArchiveInfo => Some(
                OperationView::WriteBuildInfo { path: files.archived_info, info: self.record() },
            ),
            BuildAction::PublishBinary => Some(
                OperationView::CopyFile { from: paths.built_binary, to: files.latest_binary },
            ),
            BuildAction::PublishEncrypted => Some(
                OperationView::CopyFile {
                    from: files.archived_encrypted,
                    to: files.latest_encrypted,
                },
            ),
            BuildAction::PublishInfo => Some(
                OperationView::CopyFile { from: files.archived_info, to: files.latest_info },
            ),
            BuildAction::Finish(_) => None,
        }
    }
}

impl BuildManager {
    /// The operation that carries out the action that the manager waits for.
    pub fn operation(&self, paths: &BuildPaths) -> (r: Option<Operation>)
        ensures
            r is Some == self@.operation(paths@) is Some,
            r is Some ==> r->0@ == self@.operation(paths@)->0,
    {
        let files = paths.files(self.timestamp.as_str());
        match self.awaiting {
            BuildAction::EnsureBuildDir => Some(
                Operation::CreateDirIfMissing { path: paths.build_dir.clone() },
            ),
            BuildAction::CheckRepository => Some(
                Operation::PathExists { path: paths.repository.clone() },
            ),
            BuildAction::GitClone => Some(Operation::Run { command: paths.clone_command() }),
            BuildAction::GitPull => Some(Operation::Run { command: paths.pull_command() }),
            BuildAction::EnsureLatestDir => Some(
                Operation::CreateDirIfMissing { path: paths.latest_dir.clone() },
            ),
            BuildAction::LookForLatestInfo => Some(
                Operation::PathExists { path: files.latest_info },
            ),
            BuildAction::ReadLatestInfo => Some(
                Operation::ReadBuildInfo { path: files.latest_info },
            ),
            BuildAction::ReadHeadCommit | BuildAction::ReadCommitForRecord => Some(
                Operation::RunCaptured { command: paths.head_command() },
            ),
            BuildAction::RunPreBuildScript => match &paths.pre_build_script {
                Some(script) => Some(
                    Operation::Run {
                        command: Command::within(
                            paths.repository.as_str(),
                            "/bin/bash",
                            two_args("-eux", script.as_str()),
                        ),
                    },
                ),
                None => None,
            },
            BuildAction::CargoBuild => Some(Operation::Run { command: paths.build_command() }),
            BuildAction::ReadBinaryBuildInfo => Some(
                Operation::RunCaptured {
                    command: Command::within(
                        paths.repository.as_str(),
                        paths.built_binary.as_str(),
                        one_arg("--build-info"),
                    ),
                },
            ),
            BuildAction::ReadClock => Some(Operation::ReadClock),
            BuildAction::EnsureHistoryDir => Some(
                Operation::CreateDirIfMissing { path: paths.history_dir.clone() },
            ),
            BuildAction::CreateArchiveDir => Some(
                Operation::CreateDirIfMissing { path: files.archive_dir },
            ),
            BuildAction::ArchiveBinary => Some(
                Operation::CopyFile { from: paths.built_binary.clone(), to: files.archived_binary },
            ),
            BuildAction::ListSecretKeys => Some(
                Operation::RunCaptured {
                    command: Command::plain("gpg", one_arg("--list-secret-keys")),
                },
            ),
            BuildAction::GenerateKey => Some(Operation::Run { command: generate_key_command() }),
            BuildAction::EncryptAndSign => Some(
                Operation::Run { command: paths.sign_command(&files) },
            ),
            BuildAction::WriteArchiveInfo => Some(
                Operation::WriteBuildInfo { path: files.archived_info, info: self.record() },
            ),
            BuildAction::PublishBinary => Some(
                Operation::CopyFile { from: paths.built_binary.clone(), to: files.latest_binary },
            ),
            BuildAction::PublishEncrypted => Some(
                Operation::CopyFile { from: files.archived_encrypted, to: files.latest_encrypted },
            ),
            BuildAction::PublishInfo => Some(
                Operation::CopyFile { from: files.archived_info, to: files.latest_info },
            ),
            BuildAction::Finish(_) => None,
        }
    }
}

} // verus!
