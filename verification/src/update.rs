//! Handle software updates
//!
//! The update manager takes one command at a time: update one of the two
//! binaries from the update provider, or restart the backend. For an update it
//! fetches the record of the latest build, downloads and decrypts the binary if
//! the downloaded record differs, installs it if the installed record differs,
//! and asks for a reboot.

use crate::channel::InProgressChannel;
use crate::config::Config;
use crate::model::{
    BuildInfo,
    BuildInfoView,
    ResetDataQueryParam,
    SoftwareInfo,
    SoftwareOptions,
    build_info_views,
};
use crate::operation::{
    Command,
    CommandView,
    Operation,
    OperationView,
    join_path,
    push_arg,
    sibling,
    spec_join_path,
    spec_sibling,
    texts,
};
use crate::step::{ExitCode, Outcome, OutcomeView};
use crate::text::{concat, optional_text};
use vstd::prelude::*;

verus! {

#[derive(Clone, Copy, Debug, PartialEq, Eq)]
pub enum UpdateError {
    UpdateManagerConfigMissing,
    ProcessStartFailed,
    ProcessWaitFailed,
    ProcessStdinFailed,
    /// The command ended unsuccessfully, with this exit code.
    CommandFailed(ExitCode),
    InvalidKeyPath,
    FileCopyingFailed,
    FileReadingFailed,
    FileWritingFailed,
    FileMovingFailed,
    FileRemovingFailed,
    InvalidOutput,
    InvalidInput,
    SendMessageFailed,
    SoftwareUpdaterConfigMissing,
    ApiRequest,
    RebootFailed,
    ResetDataDirectoryWasNotDirectory,
    ResetDataDirectoryNoFileName,
    StopBackendFailed,
    StartBackendFailed,
}

impl UpdateError {
    /// The text of the error.
    pub fn message(&self) -> (r: &'static str)
        ensures
            r@ == (match *self {
                UpdateError::UpdateManagerConfigMissing => "Update manager related config is missing"@,
                UpdateError::ProcessStartFailed => "Process start failed"@,
                UpdateError::ProcessWaitFailed => "Process wait failed"@,
                UpdateError::ProcessStdinFailed => "Process stdin writing failed"@,
                UpdateError::CommandFailed(_) => "Command failed with exit status"@,
                UpdateError::InvalidKeyPath => "Invalid key path"@,
                UpdateError::FileCopyingFailed => "File copying failed"@,
                UpdateError::FileReadingFailed => "File reading failed"@,
                UpdateError::FileWritingFailed => "File writing failed"@,
                UpdateError::FileMovingFailed => "File moving failed"@,
                UpdateError::FileRemovingFailed => "File removing failed"@,
                UpdateError::InvalidOutput => "Invalid output"@,
                UpdateError::InvalidInput => "Invalid input"@,
                UpdateError::SendMessageFailed => "Send message failed"@,
                UpdateError::SoftwareUpdaterConfigMissing => "Software updater related config is missing"@,
                UpdateError::ApiRequest => "Api request failed"@,
                UpdateError::RebootFailed => "Reboot failed"@,
                UpdateError::ResetDataDirectoryWasNotDirectory => "Reset data directory was not directory or does not exist"@,
                UpdateError::ResetDataDirectoryNoFileName => "Reset data directory missing file name"@,
                UpdateError::StopBackendFailed => "Stop backend failed"@,
                UpdateError::StartBackendFailed => "Start backend failed"@,
            }),
    {
        match self {
            UpdateError::UpdateManagerConfigMissing => "Update manager related config is missing",
            UpdateError::ProcessStartFailed => "Process start failed",
            UpdateError::ProcessWaitFailed => "Process wait failed",
            UpdateError::ProcessStdinFailed => "Process stdin writing failed",
            UpdateError::CommandFailed(_) => "Command failed with exit status",
            UpdateError::InvalidKeyPath => "Invalid key path",
            UpdateError::FileCopyingFailed => "File copying failed",
            UpdateError::FileReadingFailed => "File reading failed",
            UpdateError::FileWritingFailed => "File writing failed",
            UpdateError::FileMovingFailed => "File moving failed",
            UpdateError::FileRemovingFailed => "File removing failed",
            UpdateError::InvalidOutput => "Invalid output",
            UpdateError::InvalidInput => "Invalid input",
            UpdateError::SendMessageFailed => "Send message failed",
            UpdateError::SoftwareUpdaterConfigMissing => "Software updater related config is missing",
            UpdateError::ApiRequest => "Api request failed",
            UpdateError::RebootFailed => "Reboot failed",
            UpdateError::ResetDataDirectoryWasNotDirectory => "Reset data directory was not directory or does not exist",
            UpdateError::ResetDataDirectoryNoFileName => "Reset data directory missing file name",
            UpdateError::StopBackendFailed => "Stop backend failed",
            UpdateError::StartBackendFailed => "Start backend failed",
        }
    }
}

#[derive(Clone, Copy, Debug)]
pub enum UpdateManagerMessage {
    UpdateSoftware { force_reboot: bool, reset_data: ResetDataQueryParam, software: SoftwareOptions },
    RestartBackend { reset_data: ResetDataQueryParam },
}

impl UpdateManagerMessage {
    /// The software that the command is about.
    pub open spec fn software(self) -> SoftwareOptions {
        match self {
            UpdateManagerMessage::UpdateSoftware { software, .. } => software,
            UpdateManagerMessage::RestartBackend { .. } => SoftwareOptions::Backend,
        }
    }

    /// Whether the command asks for the backend's data to be set aside.
    pub open spec fn reset_data(self) -> bool {
        match self {
            UpdateManagerMessage::UpdateSoftware { reset_data, .. } => reset_data.reset_data,
            UpdateManagerMessage::RestartBackend { reset_data } => reset_data.reset_data,
        }
    }

    /// Whether the command asks for a reboot right after the installation.
    pub open spec fn force_reboot(self) -> bool {
        match self {
            UpdateManagerMessage::UpdateSoftware { force_reboot, .. } => force_reboot,
            UpdateManagerMessage::RestartBackend { .. } => false,
        }
    }
}

/// Hands `message` to the update manager. The command is refused while the
/// update manager is busy with another one.
pub fn send_message(channel: &mut InProgressChannel<UpdateManagerMessage>, message: UpdateManagerMessage) -> (r:
    Result<(), UpdateError>)
    requires
        old(channel)@.wf(),
    ensures
        r is Ok <==> old(channel)@.send_result() is Ok,
        r is Err ==> r->Err_0 == UpdateError::SendMessageFailed,
        final(channel)@ == old(channel)@.after_send(message),
        final(channel)@.wf(),
{
    match channel.send_message(message) {
        Ok(()) => Ok(()),
        Err(_) => Err(UpdateError::SendMessageFailed),
    }
}

/// Hands the command that updates `software` to the update manager.
pub fn send_update_request(
    channel: &mut InProgressChannel<UpdateManagerMessage>,
    software: SoftwareOptions,
    force_reboot: bool,
    reset_data: ResetDataQueryParam,
) -> (r: Result<(), UpdateError>)
    requires
        old(channel)@.wf(),
    ensures
        r is Ok <==> old(channel)@.send_result() is Ok,
        r is Err ==> r->Err_0 == UpdateError::SendMessageFailed,
        final(channel)@ == old(channel)@.after_send(
            UpdateManagerMessage::UpdateSoftware { force_reboot, reset_data, software },
        ),
        final(channel)@.wf(),
{
    send_message(
        channel,
        UpdateManagerMessage::UpdateSoftware { force_reboot, reset_data, software },
    )
}

/// Hands the command that restarts the backend to the update manager.
pub fn send_restart_backend_request(
    channel: &mut InProgressChannel<UpdateManagerMessage>,
    reset_data: ResetDataQueryParam,
) -> (r: Result<(), UpdateError>)
    requires
        old(channel)@.wf(),
    ensures
        r is Ok <==> old(channel)@.send_result() is Ok,
        r is Err ==> r->Err_0 == UpdateError::SendMessageFailed,
        final(channel)@ == old(channel)@.after_send(
            UpdateManagerMessage::RestartBackend { reset_data },
        ),
        final(channel)@.wf(),
{
    send_message(channel, UpdateManagerMessage::RestartBackend { reset_data })
}

/// The names of the files in the update directory.
pub struct UpdateDirCreator;

impl UpdateDirCreator {
    /// The update directory of the storage directory `storage_dir`.
    pub fn update_dir(storage_dir: &str) -> (r: String)
        ensures
            r@ == spec_join_path(storage_dir@, "update"@),
    {
        join_path(storage_dir, "update")
    }

    pub fn installed_build_info_json_name(binary: &str) -> (r: String)
        ensures
            r@ == binary@ + ".json.installed"@,
    {
        concat(binary, ".json.installed")
    }

    pub fn installed_old_build_info_json_name(binary: &str) -> (r: String)
        ensures
            r@ == binary@ + ".json.installed.old"@,
    {
        concat(binary, ".json.installed.old")
    }

    /// The name of the file that holds the record of the downloaded binary.
    pub fn build_info_json_name(binary: &str) -> (r: String)
        ensures
            r@ == binary@ + ".json"@,
    {
        concat(binary, ".json")
    }

    /// The name of the file that holds the encrypted binary.
    pub fn encrypted_binary_name(binary: &str) -> (r: String)
        ensures
            r@ == binary@ + ".gpg"@,
    {
        concat(binary, ".gpg")
    }

    /// The records of the installed software: that of the manager, then that
    /// of the backend, each if there is one.
    pub fn current_software(manager: Option<BuildInfo>, backend: Option<BuildInfo>) -> (r:
        SoftwareInfo)
        ensures
            build_info_views(r.current_software@) == (match manager {
                Some(m) => seq![m@],
                None => Seq::<BuildInfoView>::empty(),
            }) + (match backend {
                Some(b) => seq![b@],
                None => Seq::<BuildInfoView>::empty(),
            }),
    {
        let mut info_vec: Vec<BuildInfo> = Vec::new();
        match manager {
            Some(m) => {
                info_vec.push(m);
            },
            None => {},
        }
        match backend {
            Some(b) => {
                info_vec.push(b);
            },
            None => {},
        }
        assert(build_info_views(info_vec@) =~= (match manager {
            Some(m) => seq![m@],
            None => Seq::<BuildInfoView>::empty(),
        }) + (match backend {
            Some(b) => seq![b@],
            None => Seq::<BuildInfoView>::empty(),
        }));
        SoftwareInfo { current_software: info_vec }
    }
}

/// What the update manager asks its caller to do. The files are those of the
/// update directory; `<name>` is the name of the software.
#[derive(Clone, Copy, Debug, PartialEq, Eq)]
pub enum UpdateAction {
    /// Create the update directory if it is missing.
    EnsureUpdateDir,
    /// Say whether `<name>.json` exists.
    LookForDownloadedInfo,
    /// Read the record in `<name>.json`.
    ReadDownloadedInfo,
    /// Fetch the record of the latest build from the update provider.
    FetchLatestInfo,
    /// Fetch the latest encrypted binary from the update provider.
    FetchEncryptedBinary,
    /// Write the fetched binary to `<name>.gpg`.
    WriteEncryptedBinary,
    /// Import the public key that binaries are signed with.
    ImportSigningKey,
    /// Say whether the decrypted binary `<name>` of an earlier update exists.
    LookForStagedBinary,
    /// Remove the decrypted binary of an earlier update.
    RemoveStagedBinary,
    /// Decrypt `<name>.gpg` to `<name>`, which checks its signature.
    DecryptBinary,
    /// Write the record of the latest build to `<name>.json`.
    WriteDownloadedInfo,
    /// Say whether `<name>.json.installed` exists.
    LookForInstalledInfo,
    /// Read the record in `<name>.json.installed`.
    ReadInstalledInfo,
    /// Rename `<name>.json.installed` to `<name>.json.installed.old`.
    RotateInstalledInfo,
    /// Say whether the install target exists.
    CheckInstallTarget,
    /// Rename the install target to `<target>.old`.
    RotateInstallTarget,
    /// Copy the decrypted binary to the install target.
    CopyBinaryToTarget,
    /// Make the install target executable for its owner.
    MakeTargetExecutable,
    /// Write the record of the latest build to `<name>.json.installed`.
    WriteInstalledInfo,
    /// Say whether the backend's data directory is a directory.
    CheckDataDir,
    /// Say whether the directory that holds the data set aside before is a
    /// directory.
    CheckOldDataDir,
    /// Remove the data that was set aside before.
    RemoveOldDataDir,
    /// Set the backend's data aside by renaming its directory.
    RotateDataDir,
    /// Set the latch that makes the next reboot check reboot.
    SetRebootPending,
    /// Tell the reboot manager to reboot now.
    RequestReboot,
    /// Stop the backend.
    StopBackend,
    /// Start the backend.
    StartBackend,
    /// Nothing more to do: this is how the command ended.
    Finish(Result<(), UpdateError>),
}

/// What follows an action on a file or a request: `next` if it succeeded,
/// else the end of the command with `error`.
pub open spec fn after_operation(outcome: OutcomeView, next: UpdateAction, error: UpdateError) -> UpdateAction {
    if outcome is Succeeded {
        next
    } else {
        UpdateAction::Finish(Err(error))
    }
}

/// What follows the run of a command: `next` if it ended successfully, else
/// the end of the update, with the exit code if the command ran.
pub open spec fn after_process(outcome: OutcomeView, next: UpdateAction) -> UpdateAction {
    match outcome {
        OutcomeView::Succeeded => next,
        OutcomeView::Exited(code) => UpdateAction::Finish(Err(UpdateError::CommandFailed(code))),
        _ => UpdateAction::Finish(Err(UpdateError::ProcessWaitFailed)),
    }
}

/// What an update manager holds.
pub struct UpdateManagerView {
    /// The action whose outcome the manager waits for.
    pub awaiting: UpdateAction,
    /// The command that is being handled.
    pub message: UpdateManagerMessage,
    /// The configuration has a section for the update provider.
    pub updater_configured: bool,
    /// That section names a data directory of the backend.
    pub data_dir_configured: bool,
    /// The data directory has a name that `-old` can be put behind.
    pub data_dir_named: bool,
    /// The record of the binary that was downloaded last.
    pub current: BuildInfoView,
    /// The record of the latest build.
    pub latest: BuildInfoView,
    /// There is a record of an installed binary.
    pub installed_exists: bool,
}

impl UpdateManagerView {
    /// The manager as it is, waiting for the outcome of `action`.
    pub open spec fn go(self, action: UpdateAction) -> UpdateManagerView {
        UpdateManagerView { awaiting: action, ..self }
    }

    /// What follows once the data was set aside, or did not have to be.
    pub open spec fn after_reset(self) -> UpdateAction {
        match self.message {
            UpdateManagerMessage::UpdateSoftware { .. } => UpdateAction::SetRebootPending,
            UpdateManagerMessage::RestartBackend { .. } => UpdateAction::StartBackend,
        }
    }

    /// The first step of setting the backend's data aside. Data is only set
    /// aside on request, only for the backend, and only where a data
    /// directory is configured.
    pub open spec fn reset_entry(self) -> UpdateAction {
        if !self.message.reset_data() || self.message.software() != SoftwareOptions::Backend {
            self.after_reset()
        } else if !self.updater_configured {
            UpdateAction::Finish(Err(UpdateError::SoftwareUpdaterConfigMissing))
        } else if !self.data_dir_configured {
            self.after_reset()
        } else {
            UpdateAction::CheckDataDir
        }
    }

    /// The first step of putting the binary in place.
    pub open spec fn replace_entry(self) -> UpdateAction {
        if self.updater_configured {
            UpdateAction::CheckInstallTarget
        } else {
            UpdateAction::Finish(Err(UpdateError::SoftwareUpdaterConfigMissing))
        }
    }

    /// What follows the look at the installed record `installed`: nothing if
    /// it is the record of the latest build, else the installation.
    pub open spec fn install_or_finish(self, installed: BuildInfoView, exists: bool) -> UpdateAction {
        if self.latest != installed {
            if exists {
                UpdateAction::RotateInstalledInfo
            } else {
                self.replace_entry()
            }
        } else {
            UpdateAction::Finish(Ok(()))
        }
    }

    /// Whether `outcome` is an answer to the action that the manager waits for.
    pub open spec fn answers(self, outcome: OutcomeView) -> bool {
        match self.awaiting {
            UpdateAction::EnsureUpdateDir | UpdateAction::SetRebootPending => outcome is Succeeded,
            UpdateAction::LookForDownloadedInfo
            | UpdateAction::LookForStagedBinary
            | UpdateAction::LookForInstalledInfo
            | UpdateAction::CheckInstallTarget
            | UpdateAction::CheckDataDir
            | UpdateAction::CheckOldDataDir => outcome.of_check(),
            UpdateAction::ReadDownloadedInfo
            | UpdateAction::FetchLatestInfo
            | UpdateAction::ReadInstalledInfo => outcome.of_record_read(),
            UpdateAction::FetchEncryptedBinary
            | UpdateAction::WriteEncryptedBinary
            | UpdateAction::RemoveStagedBinary
            | UpdateAction::WriteDownloadedInfo
            | UpdateAction::RotateInstalledInfo
            | UpdateAction::RotateInstallTarget
            | UpdateAction::CopyBinaryToTarget
            | UpdateAction::WriteInstalledInfo
            | UpdateAction::RemoveOldDataDir
            | UpdateAction::RotateDataDir
            | UpdateAction::RequestReboot => outcome.of_operation(),
            UpdateAction::ImportSigningKey
            | UpdateAction::DecryptBinary
            | UpdateAction::MakeTargetExecutable
            | UpdateAction::StopBackend
            | UpdateAction::StartBackend => outcome.of_process(),
            UpdateAction::Finish(_) => false,
        }
    }

    /// The manager after it was told `outcome`; the action it asks for next is
    /// the one it then waits for.
    pub open spec fn next(self, outcome: OutcomeView) -> UpdateManagerView {
        match self.awaiting {
            UpdateAction::EnsureUpdateDir => self.go(UpdateAction::LookForDownloadedInfo),
            UpdateAction::LookForDownloadedInfo => if outcome == OutcomeView::Exists(true) {
                self.go(UpdateAction::ReadDownloadedInfo)
            } else {
                UpdateManagerView {
                    awaiting: UpdateAction::FetchLatestInfo,
                    current: BuildInfoView::empty(),
                    ..self
                }
            },
            UpdateAction::ReadDownloadedInfo => match outcome {
                OutcomeView::Info(info) => UpdateManagerView {
                    awaiting: UpdateAction::FetchLatestInfo,
                    current: info,
                    ..self
                },
                OutcomeView::Invalid => self.go(
                    UpdateAction::Finish(Err(UpdateError::InvalidInput)),
                ),
                _ => self.go(UpdateAction::Finish(Err(UpdateError::FileReadingFailed))),
            },
            UpdateAction::FetchLatestInfo => match outcome {
                OutcomeView::Info(info) => UpdateManagerView {
                    awaiting: if self.current != info {
                        UpdateAction::FetchEncryptedBinary
                    } else {
                        UpdateAction::LookForInstalledInfo
                    },
                    latest: info,
                    ..self
                },
                _ => self.go(UpdateAction::Finish(Err(UpdateError::ApiRequest))),
            },
            UpdateAction::FetchEncryptedBinary => self.go(
                after_operation(
                    outcome,
                    UpdateAction::WriteEncryptedBinary,
                    UpdateError::ApiRequest,
                ),
            ),
            UpdateAction::WriteEncryptedBinary => self.go(
                after_operation(
                    outcome,
                    if self.updater_configured {
                        UpdateAction::ImportSigningKey
                    } else {
                        UpdateAction::Finish(Err(UpdateError::SoftwareUpdaterConfigMissing))
                    },
                    UpdateError::FileWritingFailed,
                ),
            ),
            UpdateAction::ImportSigningKey => self.go(
                after_process(outcome, UpdateAction::LookForStagedBinary),
            ),
            UpdateAction::LookForStagedBinary => self.go(
                if outcome == OutcomeView::Exists(true) {
                    UpdateAction::RemoveStagedBinary
                } else {
                    UpdateAction::DecryptBinary
                },
            ),
            UpdateAction::RemoveStagedBinary => self.go(
                after_operation(
                    outcome,
                    UpdateAction::DecryptBinary,
                    UpdateError::FileRemovingFailed,
                ),
            ),
            UpdateAction::DecryptBinary => self.go(
                after_process(outcome, UpdateAction::WriteDownloadedInfo),
            ),
            UpdateAction::WriteDownloadedInfo => self.go(
                after_operation(
                    outcome,
                    UpdateAction::LookForInstalledInfo,
                    UpdateError::FileWritingFailed,
                ),
            ),
            UpdateAction::LookForInstalledInfo => if outcome == OutcomeView::Exists(true) {
                UpdateManagerView {
                    awaiting: UpdateAction::ReadInstalledInfo,
                    installed_exists: true,
                    ..self
                }
            } else {
                UpdateManagerView {
                    awaiting: self.install_or_finish(BuildInfoView::empty(), false),
                    installed_exists: false,
                    ..self
                }
            },
            UpdateAction::ReadInstalledInfo => match outcome {
                OutcomeView::Info(info) => self.go(
                    self.install_or_finish(info, self.installed_exists),
                ),
                OutcomeView::Invalid => self.go(
                    UpdateAction::Finish(Err(UpdateError::InvalidInput)),
                ),
                _ => self.go(UpdateAction::Finish(Err(UpdateError::FileReadingFailed))),
            },
            UpdateAction::RotateInstalledInfo => self.go(
                after_operation(outcome, self.replace_entry(), UpdateError::FileMovingFailed),
            ),
            UpdateAction::CheckInstallTarget => self.go(
                if outcome == OutcomeView::Exists(true) {
                    UpdateAction::RotateInstallTarget
                } else {
                    UpdateAction::CopyBinaryToTarget
                },
            ),
            UpdateAction::RotateInstallTarget => self.go(
                after_operation(
                    outcome,
                    UpdateAction::CopyBinaryToTarget,
                    UpdateError::FileMovingFailed,
                ),
            ),
            UpdateAction::CopyBinaryToTarget => self.go(
                after_operation(
                    outcome,
                    UpdateAction::MakeTargetExecutable,
                    UpdateError::FileCopyingFailed,
                ),
            ),
            UpdateAction::MakeTargetExecutable => self.go(
                after_process(outcome, UpdateAction::WriteInstalledInfo),
            ),
            UpdateAction::WriteInstalledInfo => self.go(
                after_operation(outcome, self.reset_entry(), UpdateError::FileWritingFailed),
            ),
            UpdateAction::CheckDataDir => self.go(
                if outcome == OutcomeView::Exists(true) {
                    if self.data_dir_named {
                        UpdateAction::CheckOldDataDir
                    } else {
                        UpdateAction::Finish(Err(UpdateError::ResetDataDirectoryNoFileName))
                    }
                } else {
                    UpdateAction::Finish(Err(UpdateError::ResetDataDirectoryWasNotDirectory))
                },
            ),
            UpdateAction::CheckOldDataDir => self.go(
                if outcome == OutcomeView::Exists(true) {
                    UpdateAction::RemoveOldDataDir
                } else {
                    UpdateAction::RotateDataDir
                },
            ),
            UpdateAction::RemoveOldDataDir => self.go(
                after_operation(
                    outcome,
                    UpdateAction::RotateDataDir,
                    UpdateError::FileRemovingFailed,
                ),
            ),
            UpdateAction::RotateDataDir => self.go(
                after_operation(outcome, self.after_reset(), UpdateError::FileMovingFailed),
            ),
            UpdateAction::SetRebootPending => self.go(
                if self.message.force_reboot() {
                    UpdateAction::RequestReboot
                } else {
                    UpdateAction::Finish(Ok(()))
                },
            ),
            UpdateAction::RequestReboot => self.go(
                after_operation(
                    outcome,
                    UpdateAction::Finish(Ok(())),
                    UpdateError::RebootFailed,
                ),
            ),
            UpdateAction::StopBackend => self.go(
                after_operation(outcome, self.reset_entry(), UpdateError::StopBackendFailed),
            ),
            UpdateAction::StartBackend => self.go(
                after_operation(
                    outcome,
                    UpdateAction::Finish(Ok(())),
                    UpdateError::StartBackendFailed,
                ),
            ),
            UpdateAction::Finish(_) => self,
        }
    }

    /// The manager that starts on `message` under the given configuration.
    pub open spec fn started(message: UpdateManagerMessage, config: Config) -> UpdateManagerView {
        let updater = config.file().software_update_provider;
        UpdateManagerView {
            awaiting: match message {
                UpdateManagerMessage::UpdateSoftware { .. } => UpdateAction::EnsureUpdateDir,
                UpdateManagerMessage::RestartBackend { .. } => UpdateAction::StopBackend,
            },
            message,
            updater_configured: updater is Some,
            data_dir_configured: updater is Some && updater->0.backend_data_reset_dir is Some,
            data_dir_named: updater is Some && updater->0.backend_data_reset_dir is Some
                && spec_sibling(updater->0.backend_data_reset_dir->0@, "-old"@) is Some,
            current: BuildInfoView::empty(),
            latest: BuildInfoView::empty(),
            installed_exists: false,
        }
    }
}

/// Decides, step by step, how one update command is carried out.
pub struct UpdateManager {
    awaiting: UpdateAction,
    message: UpdateManagerMessage,
    updater_configured: bool,
    data_dir_configured: bool,
    data_dir_named: bool,
    current: BuildInfo,
    latest: BuildInfo,
    installed_exists: bool,
}

impl View for UpdateManager {
    type V = UpdateManagerView;

    closed spec fn view(&self) -> UpdateManagerView {
        UpdateManagerView {
            awaiting: self.awaiting,
            message: self.message,
            updater_configured: self.updater_configured,
            data_dir_configured: self.data_dir_configured,
            data_dir_named: self.data_dir_named,
            current: self.current@,
            latest: self.latest@,
            installed_exists: self.installed_exists,
        }
    }
}

fn operation_done(outcome: &Outcome, next: UpdateAction, error: UpdateError) -> (r: UpdateAction)
    ensures
        r == after_operation(outcome@, next, error),
{
    match outcome {
        Outcome::Succeeded => next,
        _ => UpdateAction::Finish(Err(error)),
    }
}

fn process_done(outcome: &Outcome, next: UpdateAction) -> (r: UpdateAction)
    ensures
        r == after_process(outcome@, next),
{
    match outcome {
        Outcome::Succeeded => next,
        Outcome::Exited(code) => UpdateAction::Finish(Err(UpdateError::CommandFailed(*code))),
        _ => UpdateAction::Finish(Err(UpdateError::ProcessWaitFailed)),
    }
}

fn is_found(outcome: &Outcome) -> (r: bool)
    ensures
        r == (outcome@ == OutcomeView::Exists(true)),
{
    match outcome {
        Outcome::Exists(true) => true,
        _ => false,
    }
}

impl UpdateManager {
    /// Starts the handling of `message`.
    pub fn handle_message(message: UpdateManagerMessage, config: &Config) -> (r: UpdateManager)
        ensures
            r@ == UpdateManagerView::started(message, *config),
    {
        let awaiting = match message {
            UpdateManagerMessage::UpdateSoftware { .. } => UpdateAction::EnsureUpdateDir,
            UpdateManagerMessage::RestartBackend { .. } => UpdateAction::StopBackend,
        };
        let mut updater_configured = false;
        let mut data_dir_configured = false;
        let mut data_dir_named = false;
        match config.software_update_provider() {
            Some(updater) => {
                updater_configured = true;
                match &updater.backend_data_reset_dir {
                    Some(dir) => {
                        data_dir_configured = true;
                        data_dir_named = sibling(dir.as_str(), "-old").is_some();
                    },
                    None => {},
                }
            },
            None => {},
        }
        UpdateManager {
            awaiting,
            message,
            updater_configured,
            data_dir_configured,
            data_dir_named,
            current: BuildInfo::default(),
            latest: BuildInfo::default(),
            installed_exists: false,
        }
    }

    /// The action whose outcome the manager waits for.
    pub fn awaiting(&self) -> (r: UpdateAction)
        ensures
            r == self@.awaiting,
    {
        self.awaiting
    }

    /// The record of the latest build, once it was fetched.
    pub fn latest(&self) -> (r: &BuildInfo)
        ensures
            r@ == self@.latest,
    {
        &self.latest
    }

    fn software(&self) -> (r: SoftwareOptions)
        ensures
            r == self@.message.software(),
    {
        match self.message {
            UpdateManagerMessage::UpdateSoftware { software, .. } => software,
            UpdateManagerMessage::RestartBackend { .. } => SoftwareOptions::Backend,
        }
    }

    fn after_reset(&self) -> (r: UpdateAction)
        ensures
            r == self@.after_reset(),
    {
        match self.message {
            UpdateManagerMessage::UpdateSoftware { .. } => UpdateAction::SetRebootPending,
            UpdateManagerMessage::RestartBackend { .. } => UpdateAction::StartBackend,
        }
    }

    fn reset_entry(&self) -> (r: UpdateAction)
        ensures
            r == self@.reset_entry(),
    {
        let reset_data = match self.message {
            UpdateManagerMessage::UpdateSoftware { reset_data, .. } => reset_data.reset_data,
            UpdateManagerMessage::RestartBackend { reset_data } => reset_data.reset_data,
        };
        let backend = match self.software() {
            SoftwareOptions::Backend => true,
            SoftwareOptions::Manager => false,
        };
        if !reset_data || !backend {
            self.after_reset()
        } else if !self.updater_configured {
            UpdateAction::Finish(Err(UpdateError::SoftwareUpdaterConfigMissing))
        } else if !self.data_dir_configured {
            self.after_reset()
        } else {
            UpdateAction::CheckDataDir
        }
    }

    fn replace_entry(&self) -> (r: UpdateAction)
        ensures
            r == self@.replace_entry(),
    {
        if self.updater_configured {
            UpdateAction::CheckInstallTarget
        } else {
            UpdateAction::Finish(Err(UpdateError::SoftwareUpdaterConfigMissing))
        }
    }

    fn install_or_finish(&self, installed: &BuildInfo, exists: bool) -> (r: UpdateAction)
        ensures
            r == self@.install_or_finish(installed@, exists),
    {
        if self.latest != *installed {
            if exists {
                UpdateAction::RotateInstalledInfo
            } else {
                self.replace_entry()
            }
        } else {
            UpdateAction::Finish(Ok(()))
        }
    }

    /// Whether `outcome` is an answer to the action that the manager waits for.
    pub fn accepts(&self, outcome: &Outcome) -> (r: bool)
        ensures
            r == self@.answers(outcome@),
    {
        match self.awaiting {
            UpdateAction::EnsureUpdateDir | UpdateAction::SetRebootPending => match outcome {
                Outcome::Succeeded => true,
                _ => false,
            },
            UpdateAction::LookForDownloadedInfo
            | UpdateAction::LookForStagedBinary
            | UpdateAction::LookForInstalledInfo
            | UpdateAction::CheckInstallTarget
            | UpdateAction::CheckDataDir
            | UpdateAction::CheckOldDataDir => outcome.of_check(),
            UpdateAction::ReadDownloadedInfo
            | UpdateAction::FetchLatestInfo
            | UpdateAction::ReadInstalledInfo => outcome.of_record_read(),
            UpdateAction::FetchEncryptedBinary
            | UpdateAction::WriteEncryptedBinary
            | UpdateAction::RemoveStagedBinary
            | UpdateAction::WriteDownloadedInfo
            | UpdateAction::RotateInstalledInfo
            | UpdateAction::RotateInstallTarget
            | UpdateAction::CopyBinaryToTarget
            | UpdateAction::WriteInstalledInfo
            | UpdateAction::RemoveOldDataDir
            | UpdateAction::RotateDataDir
            | UpdateAction::RequestReboot => outcome.of_operation(),
            UpdateAction::ImportSigningKey
            | UpdateAction::DecryptBinary
            | UpdateAction::MakeTargetExecutable
            | UpdateAction::StopBackend
            | UpdateAction::StartBackend => outcome.of_process(),
            UpdateAction::Finish(_) => false,
        }
    }

    /// Takes the outcome of the action asked for last and answers with the
    /// next action.
    pub fn step(&mut self, outcome: Outcome) -> (action: UpdateAction)
        requires
            old(self)@.answers(outcome@),
        ensures
            final(self)@ == old(self)@.next(outcome@),
            action == final(self)@.awaiting,
    {
        let action = match self.awaiting {
            UpdateAction::EnsureUpdateDir => UpdateAction::LookForDownloadedInfo,
            UpdateAction::LookForDownloadedInfo => {
                if is_found(&outcome) {
                    UpdateAction::ReadDownloadedInfo
                } else {
                    self.current = BuildInfo::default();
                    UpdateAction::FetchLatestInfo
                }
            },
            UpdateAction::ReadDownloadedInfo => match outcome {
                Outcome::Info(info) => {
                    self.current = info;
                    UpdateAction::FetchLatestInfo
                },
                Outcome::Invalid => UpdateAction::Finish(Err(UpdateError::InvalidInput)),
                _ => UpdateAction::Finish(Err(UpdateError::FileReadingFailed)),
            },
            UpdateAction::FetchLatestInfo => match outcome {
                Outcome::Info(info) => {
                    let changed = self.current != info;
                    self.latest = info;
                    if changed {
                        UpdateAction::FetchEncryptedBinary
                    } else {
                        UpdateAction::LookForInstalledInfo
                    }
                },
                _ => UpdateAction::Finish(Err(UpdateError::ApiRequest)),
            },
            UpdateAction::FetchEncryptedBinary => operation_done(
                &outcome,
                UpdateAction::WriteEncryptedBinary,
                UpdateError::ApiRequest,
            ),
            UpdateAction::WriteEncryptedBinary => {
                let next = if self.updater_configured {
                    UpdateAction::ImportSigningKey
                } else {
                    UpdateAction::Finish(Err(UpdateError::SoftwareUpdaterConfigMissing))
                };
                operation_done(&outcome, next, UpdateError::FileWritingFailed)
            },
            UpdateAction::ImportSigningKey => process_done(
                &outcome,
                UpdateAction::LookForStagedBinary,
            ),
            UpdateAction::LookForStagedBinary => {
                if is_found(&outcome) {
                    UpdateAction::RemoveStagedBinary
                } else {
                    UpdateAction::DecryptBinary
                }
            },
            UpdateAction::RemoveStagedBinary => operation_done(
                &outcome,
                UpdateAction::DecryptBinary,
                UpdateError::FileRemovingFailed,
            ),
            UpdateAction::DecryptBinary => process_done(&outcome, UpdateAction::WriteDownloadedInfo),
            UpdateAction::WriteDownloadedInfo => operation_done(
                &outcome,
                UpdateAction::LookForInstalledInfo,
                UpdateError::FileWritingFailed,
            ),
            UpdateAction::LookForInstalledInfo => {
                if is_found(&outcome) {
                    self.installed_exists = true;
                    UpdateAction::ReadInstalledInfo
                } else {
                    self.installed_exists = false;
                    let none = BuildInfo::default();
                    self.install_or_finish(&none, false)
                }
            },
            UpdateAction::ReadInstalledInfo => match outcome {
                Outcome::Info(info) => self.install_or_finish(&info, self.installed_exists),
                Outcome::Invalid => UpdateAction::Finish(Err(UpdateError::InvalidInput)),
                _ => UpdateAction::Finish(Err(UpdateError::FileReadingFailed)),
            },
            UpdateAction::RotateInstalledInfo => operation_done(
                &outcome,
                self.replace_entry(),
                UpdateError::FileMovingFailed,
            ),
            UpdateAction::CheckInstallTarget => {
                if is_found(&outcome) {
                    UpdateAction::RotateInstallTarget
                } else {
                    UpdateAction::CopyBinaryToTarget
                }
            },
            UpdateAction::RotateInstallTarget => operation_done(
                &outcome,
                UpdateAction::CopyBinaryToTarget,
                UpdateError::FileMovingFailed,
            ),
            UpdateAction::CopyBinaryToTarget => operation_done(
                &outcome,
                UpdateAction::MakeTargetExecutable,
                UpdateError::FileCopyingFailed,
            ),
            UpdateAction::MakeTargetExecutable => process_done(
                &outcome,
                UpdateAction::WriteInstalledInfo,
            ),
            UpdateAction::WriteInstalledInfo => operation_done(
                &outcome,
                self.reset_entry(),
                UpdateError::FileWritingFailed,
            ),
            UpdateAction::CheckDataDir => {
                if is_found(&outcome) {
                    if self.data_dir_named {
                        UpdateAction::CheckOldDataDir
                    } else {
                        UpdateAction::Finish(Err(UpdateError::ResetDataDirectoryNoFileName))
                    }
                } else {
                    UpdateAction::Finish(Err(UpdateError::ResetDataDirectoryWasNotDirectory))
                }
            },
            UpdateAction::CheckOldDataDir => {
                if is_found(&outcome) {
                    UpdateAction::RemoveOldDataDir
                } else {
                    UpdateAction::RotateDataDir
                }
            },
            UpdateAction::RemoveOldDataDir => operation_done(
                &outcome,
                UpdateAction::RotateDataDir,
                UpdateError::FileRemovingFailed,
            ),
            UpdateAction::RotateDataDir => operation_done(
                &outcome,
                self.after_reset(),
                UpdateError::FileMovingFailed,
            ),
            UpdateAction::SetRebootPending => {
                let force_reboot = match self.message {
                    UpdateManagerMessage::UpdateSoftware { force_reboot, .. } => force_reboot,
                    UpdateManagerMessage::RestartBackend { .. } => false,
                };
                if force_reboot {
                    UpdateAction::RequestReboot
                } else {
                    UpdateAction::Finish(Ok(()))
                }
            },
            UpdateAction::RequestReboot => operation_done(
                &outcome,
                UpdateAction::Finish(Ok(())),
                UpdateError::RebootFailed,
            ),
            UpdateAction::StopBackend => operation_done(
                &outcome,
                self.reset_entry(),
                UpdateError::StopBackendFailed,
            ),
            UpdateAction::StartBackend => operation_done(
                &outcome,
                UpdateAction::Finish(Ok(())),
                UpdateError::StartBackendFailed,
            ),
            UpdateAction::Finish(r) => UpdateAction::Finish(r),
        };
        self.awaiting = action;
        action
    }
}

/// The files and scripts that an update of one software works on.
#[derive(Debug)]
pub struct UpdatePaths {
    /// The update directory.
    pub update_dir: String,
    /// `<name>.json`: the record of the downloaded binary.
    pub downloaded_info: String,
    /// `<name>.gpg`: the encrypted binary as received.
    pub encrypted_binary: String,
    /// `<name>`: the decrypted binary, staged for installation.
    pub staged_binary: String,
    /// `<name>.json.installed`: the record of the installed binary.
    pub installed_info: String,
    /// `<name>.json.installed.old`: the record of the binary installed before.
    pub installed_old_info: String,
    /// The public key that binaries are signed with.
    pub signing_key: Option<String>,
    /// Where the binary is installed.
    pub install_target: Option<String>,
    /// Where the binary installed before is kept.
    pub install_target_old: Option<String>,
    /// The backend's data directory.
    pub data_dir: Option<String>,
    /// Where the backend's data is set aside.
    pub old_data_dir: Option<String>,
    /// The script that stops the backend.
    pub stop_backend: String,
    /// The script that starts the backend.
    pub start_backend: String,
}

/// The texts of [`UpdatePaths`].
pub struct UpdatePathsView {
    pub update_dir: Seq<char>,
    pub downloaded_info: Seq<char>,
    pub encrypted_binary: Seq<char>,
    pub staged_binary: Seq<char>,
    pub installed_info: Seq<char>,
    pub installed_old_info: Seq<char>,
    pub signing_key: Option<Seq<char>>,
    pub install_target: Option<Seq<char>>,
    pub install_target_old: Option<Seq<char>>,
    pub data_dir: Option<Seq<char>>,
    pub old_data_dir: Option<Seq<char>>,
    pub stop_backend: Seq<char>,
    pub start_backend: Seq<char>,
}

impl View for UpdatePaths {
    type V = UpdatePathsView;

    open spec fn view(&self) -> UpdatePathsView {
        UpdatePathsView {
            update_dir: self.update_dir@,
            downloaded_info: self.downloaded_info@,
            encrypted_binary: self.encrypted_binary@,
            staged_binary: self.staged_binary@,
            installed_info: self.installed_info@,
            installed_old_info: self.installed_old_info@,
            signing_key: optional_text(self.signing_key),
            install_target: optional_text(self.install_target),
            install_target_old: optional_text(self.install_target_old),
            data_dir: optional_text(self.data_dir),
            old_data_dir: optional_text(self.old_data_dir),
            stop_backend: self.stop_backend@,
            start_backend: self.start_backend@,
        }
    }
}

impl UpdatePathsView {
    /// The paths of an update of `software` under `config`. The files of the
    /// update directory carry the name of the software; the install target is
    /// the one configured for it, and what it replaces is kept beside it with
    /// `.old` behind its name. The data is set aside beside the data directory,
    /// with `-old` behind its name.
    pub open spec fn of(config: Config, software: SoftwareOptions) -> UpdatePathsView {
        let dir = spec_join_path(config.file().storage_dir@, "update"@);
        let name = software.name();
        let updater = config.file().software_update_provider;
        let target = match updater {
            Some(u) => Some(
                match software {
                    SoftwareOptions::Manager => u.manager_install_location@,
                    SoftwareOptions::Backend => u.backend_install_location@,
                },
            ),
            None => None,
        };
        let data_dir = match updater {
            Some(u) => optional_text(u.backend_data_reset_dir),
            None => None,
        };
        UpdatePathsView {
            update_dir: dir,
            downloaded_info: spec_join_path(dir, name + ".json"@),
            encrypted_binary: spec_join_path(dir, name + ".gpg"@),
            staged_binary: spec_join_path(dir, name),
            installed_info: spec_join_path(dir, name + ".json.installed"@),
            installed_old_info: spec_join_path(dir, name + ".json.installed.old"@),
            signing_key: match updater {
                Some(u) => Some(u.binary_signing_public_key@),
                None => None,
            },
            install_target: target,
            install_target_old: match target {
                Some(t) => Some(t + ".old"@),
                None => None,
            },
            data_dir,
            old_data_dir: match data_dir {
                Some(d) => spec_sibling(d, "-old"@),
                None => None,
            },
            stop_backend: config.scripts().stop_backend@,
            start_backend: config.scripts().start_backend@,
        }
    }
}

/// The five files that an update keeps in the update directory are five
/// different files: the two records in particular are never one and the
/// same file, and neither is the record of the binary installed before.
pub proof fn lemma_update_files_are_distinct(config: Config, software: SoftwareOptions)
    ensures
        ({
            let paths = UpdatePathsView::of(config, software);
            &&& paths.downloaded_info != paths.installed_info
            &&& paths.downloaded_info != paths.installed_old_info
            &&& paths.installed_info != paths.installed_old_info
            &&& paths.staged_binary != paths.encrypted_binary
            &&& paths.staged_binary != paths.downloaded_info
            &&& paths.staged_binary != paths.installed_info
            &&& paths.staged_binary != paths.installed_old_info
            &&& paths.encrypted_binary != paths.downloaded_info
            &&& paths.encrypted_binary != paths.installed_info
            &&& paths.encrypted_binary != paths.installed_old_info
        }),
{
    let dir = spec_join_path(config.file().storage_dir@, "update"@);
    let name = software.name();
    reveal_strlit("manager");
    reveal_strlit("backend");
    reveal_strlit(".json");
    reveal_strlit(".gpg");
    reveal_strlit(".json.installed");
    reveal_strlit(".json.installed.old");
    assert(name.len() == 7);
    assert(name[0] != '/');
    let staged = spec_join_path(dir, name);
    let encrypted = spec_join_path(dir, name + ".gpg"@);
    let downloaded = spec_join_path(dir, name + ".json"@);
    let installed = spec_join_path(dir, name + ".json.installed"@);
    let old = spec_join_path(dir, name + ".json.installed.old"@);
    assert((name + ".gpg"@)[0] == name[0]);
    assert((name + ".json"@)[0] == name[0]);
    assert((name + ".json.installed"@)[0] == name[0]);
    assert((name + ".json.installed.old"@)[0] == name[0]);
    let base = if dir.len() == 0 || dir.last() == '/' {
        dir
    } else {
        dir + seq!['/']
    };
    assert(staged == base + name);
    assert(encrypted == base + (name + ".gpg"@));
    assert(downloaded == base + (name + ".json"@));
    assert(installed == base + (name + ".json.installed"@));
    assert(old == base + (name + ".json.installed.old"@));
    assert(staged.len() == base.len() + 7);
    assert(encrypted.len() == base.len() + 11);
    assert(downloaded.len() == base.len() + 12);
    assert(installed.len() == base.len() + 22);
    assert(old.len() == base.len() + 26);
}

impl UpdatePaths {
    /// The paths of an update of `software` under `config`.
    pub fn new(config: &Config, software: SoftwareOptions) -> (r: UpdatePaths)
        ensures
            r@ == UpdatePathsView::of(*config, software),
    {
        let update_dir = UpdateDirCreator::update_dir(config.storage_dir());
        let name = software.to_str();
        let downloaded_name = UpdateDirCreator::build_info_json_name(name);
        let encrypted_name = UpdateDirCreator::encrypted_binary_name(name);
        let installed_name = UpdateDirCreator::installed_build_info_json_name(name);
        let installed_old_name = UpdateDirCreator::installed_old_build_info_json_name(name);
        let mut signing_key: Option<String> = None;
        let mut install_target: Option<String> = None;
        let mut install_target_old: Option<String> = None;
        let mut data_dir: Option<String> = None;
        let mut old_data_dir: Option<String> = None;
        match config.software_update_provider() {
            Some(updater) => {
                signing_key = Some(updater.binary_signing_public_key.clone());
                let target = match software {
                    SoftwareOptions::Manager => updater.manager_install_location.as_str(),
                    SoftwareOptions::Backend => updater.backend_install_location.as_str(),
                };
                install_target = Some(String::from_str(target));
                install_target_old = Some(concat(target, ".old"));
                match &updater.backend_data_reset_dir {
                    Some(dir) => {
                        data_dir = Some(dir.clone());
                        old_data_dir = sibling(dir.as_str(), "-old");
                    },
                    None => {},
                }
            },
            None => {},
        }
        UpdatePaths {
            downloaded_info: join_path(update_dir.as_str(), downloaded_name.as_str()),
            encrypted_binary: join_path(update_dir.as_str(), encrypted_name.as_str()),
            staged_binary: join_path(update_dir.as_str(), name),
            installed_info: join_path(update_dir.as_str(), installed_name.as_str()),
            installed_old_info: join_path(update_dir.as_str(), installed_old_name.as_str()),
            update_dir,
            signing_key,
            install_target,
            install_target_old,
            data_dir,
            old_data_dir,
            stop_backend: String::from_str(config.script_locations().stop_backend()),
            start_backend: String::from_str(config.script_locations().start_backend()),
        }
    }
}

/// The operation that renames `from` to `to`, where both are known.
pub open spec fn rename_of(from: Option<Seq<char>>, to: Option<Seq<char>>) -> Option<OperationView> {
    match (from, to) {
        (Some(f), Some(t)) => Some(OperationView::Rename { from: f, to: t }),
        _ => None,
    }
}

fn rename_between(from: &Option<String>, to: &Option<String>) -> (r: Option<Operation>)
    ensures
        r is Some == rename_of(optional_text(*from), optional_text(*to)) is Some,
        r is Some ==> r->0@ == rename_of(optional_text(*from), optional_text(*to))->0,
{
    match (from, to) {
        (Some(f), Some(t)) => Some(Operation::Rename { from: f.clone(), to: t.clone() }),
        _ => None,
    }
}

impl UpdateManagerView {
    /// What the action that the manager waits for means on the given paths:
    /// which file to touch and which command to run. There is none once the
    /// command has ended, and none for an action on a path that the
    /// configuration does not name.
    pub open spec fn operation(self, paths: UpdatePathsView) -> Option<OperationView> {
        let software = self.message.software();
        match self.awaiting {
            UpdateAction::EnsureUpdateDir => Some(
                OperationView::CreateDirIfMissing { path: paths.update_dir },
            ),
            UpdateAction::LookForDownloadedInfo => Some(
                OperationView::PathExists { path: paths.downloaded_info },
            ),
            UpdateAction::ReadDownloadedInfo => Some(
                OperationView::ReadBuildInfo { path: paths.downloaded_info },
            ),
            UpdateAction::FetchLatestInfo => Some(OperationView::FetchLatestBuildInfo { software }),
            UpdateAction::FetchEncryptedBinary => Some(
                OperationView::FetchLatestEncryptedBinary { software },
            ),
            UpdateAction::WriteEncryptedBinary => Some(
                OperationView::WriteFetched { path: paths.encrypted_binary },
            ),
            UpdateAction::ImportSigningKey => match paths.signing_key {
                Some(key) => Some(
                    OperationView::Run {
                        command: CommandView::plain("gpg"@, seq!["--import"@, key]),
                    },
                ),
                None => None,
            },
            UpdateAction::LookForStagedBinary => Some(
                OperationView::PathExists { path: paths.staged_binary },
            ),
            UpdateAction::RemoveStagedBinary => Some(
                OperationView::RemoveFile { path: paths.staged_binary },
            ),
            UpdateAction::DecryptBinary => Some(
                OperationView::Run {
                    command: CommandView::plain(
                        "gpg"@,
                        seq![
                            "--output"@,
                            paths.staged_binary,
                            "--decrypt"@,
                            paths.encrypted_binary,
                        ],
                    ),
                },
            ),
            UpdateAction::WriteDownloadedInfo => Some(
                OperationView::WriteBuildInfo { path: paths.downloaded_info, info: self.latest },
            ),
            UpdateAction::LookForInstalledInfo => Some(
                OperationView::PathExists { path: paths.installed_info },
            ),
            UpdateAction::ReadInstalledInfo => Some(
                OperationView::ReadBuildInfo { path: paths.installed_info },
            ),
            UpdateAction::RotateInstalledInfo => Some(
                OperationView::Rename { from: paths.installed_info, to: paths.installed_old_info },
            ),
            UpdateAction::CheckInstallTarget => match paths.install_target {
                Some(target) => Some(OperationView::PathExists { path: target }),
                None => None,
            },
            UpdateAction::RotateInstallTarget => rename_of(
                paths.install_target,
                paths.install_target_old,
            ),
            UpdateAction::CopyBinaryToTarget => match paths.install_target {
                Some(target) => Some(
                    OperationView::CopyFile { from: paths.staged_binary, to: target },
                ),
                None => None,
            },
            UpdateAction::MakeTargetExecutable => match paths.install_target {
                Some(target) => Some(
                    OperationView::Run {
                        command: CommandView::plain("chmod"@, seq!["u+x"@, target]),
                    },
                ),
                None => None,
            },
            UpdateAction::WriteInstalledInfo => Some(
                OperationView::WriteBuildInfo { path: paths.installed_info, info: self.latest },
            ),
            UpdateAction::CheckDataDir => match paths.data_dir {
                Some(dir) => Some(OperationView::IsDir { path: dir }),
                None => None,
            },
            UpdateAction::CheckOldDataDir => match paths.old_data_dir {
                Some(dir) => Some(OperationView::IsDir { path: dir }),
                None => None,
            },
            UpdateAction::RemoveOldDataDir => match paths.old_data_dir {
                Some(dir) => Some(OperationView::RemoveDirAll { path: dir }),
                None => None,
            },
            UpdateAction::RotateDataDir => rename_of(paths.data_dir, paths.old_data_dir),
            UpdateAction::SetRebootPending => Some(OperationView::SetRebootPending),
            UpdateAction::RequestReboot => Some(OperationView::RequestReboot),
            UpdateAction::StopBackend => Some(
                OperationView::Run {
                    command: CommandView::plain("sudo"@, seq![paths.stop_backend]),
                },
            ),
            UpdateAction::StartBackend => Some(
                OperationView::Run {
                    command: CommandView::plain("sudo"@, seq![paths.start_backend]),
                },
            ),
            UpdateAction::Finish(_) => None,
        }
    }
}

impl UpdateManager {
    /// The software that the command is about.
    pub fn software_options(&self) -> (r: SoftwareOptions)
        ensures
            r == self@.message.software(),
    {
        self.software()
    }

    /// The operation that carries out the action that the manager waits for.
    pub fn operation(&self, paths: &UpdatePaths) -> (r: Option<Operation>)
        ensures
            r is Some == self@.operation(paths@) is Some,
            r is Some ==> r->0@ == self@.operation(paths@)->0,
    {
        let software = self.software();
        match self.awaiting {
            UpdateAction::EnsureUpdateDir => Some(
                Operation::CreateDirIfMissing { path: paths.update_dir.clone() },
            ),
            UpdateAction::LookForDownloadedInfo => Some(
                Operation::PathExists { path: paths.downloaded_info.clone() },
            ),
            UpdateAction::ReadDownloadedInfo => Some(
                Operation::ReadBuildInfo { path: paths.downloaded_info.clone() },
            ),
            UpdateAction::FetchLatestInfo => Some(Operation::FetchLatestBuildInfo { software }),
            UpdateAction::FetchEncryptedBinary => Some(
                Operation::FetchLatestEncryptedBinary { software },
            ),
            UpdateAction::WriteEncryptedBinary => Some(
                Operation::WriteFetched { path: paths.encrypted_binary.clone() },
            ),
            UpdateAction::ImportSigningKey => match &paths.signing_key {
                Some(key) => {
                    let mut args: Vec<String> = Vec::new();
                    assert(texts(args@) =~= Seq::<Seq<char>>::empty());
                    push_arg(&mut args, "--import");
                    push_arg(&mut args, key.as_str());
                    assert(texts(args@) =~= seq!["--import"@, key@]);
                    Some(Operation::Run { command: Command::plain("gpg", args) })
                },
                None => None,
            },
            UpdateAction::LookForStagedBinary => Some(
                Operation::PathExists { path: paths.staged_binary.clone() },
            ),
            UpdateAction::RemoveStagedBinary => Some(
                Operation::RemoveFile { path: paths.staged_binary.clone() },
            ),
            UpdateAction::DecryptBinary => {
                let mut args: Vec<String> = Vec::new();
                assert(texts(args@) =~= Seq::<Seq<char>>::empty());
                push_arg(&mut args, "--output");
                push_arg(&mut args, paths.staged_binary.as_str());
                push_arg(&mut args, "--decrypt");
                push_arg(&mut args, paths.encrypted_binary.as_str());
                assert(texts(args@) =~= seq![
                    "--output"@,
                    paths.staged_binary@,
                    "--decrypt"@,
                    paths.encrypted_binary@,
                ]);
                Some(Operation::Run { command: Command::plain("gpg", args) })
            },
            UpdateAction::WriteDownloadedInfo => Some(
                Operation::WriteBuildInfo {
                    path: paths.downloaded_info.clone(),
                    info: self.latest.clone(),
                },
            ),
            UpdateAction::LookForInstalledInfo => Some(
                Operation::PathExists { path: paths.installed_info.clone() },
            ),
            UpdateAction::ReadInstalledInfo => Some(
                Operation::ReadBuildInfo { path: paths.installed_info.clone() },
            ),
            UpdateAction::RotateInstalledInfo => Some(
                Operation::Rename {
                    from: paths.installed_info.clone(),
                    to: paths.installed_old_info.clone(),
                },
            ),
            UpdateAction::CheckInstallTarget => match &paths.install_target {
                Some(target) => Some(Operation::PathExists { path: target.clone() }),
                None => None,
            },
            UpdateAction::RotateInstallTarget => rename_between(
                &paths.install_target,
                &paths.install_target_old,
            ),
            UpdateAction::CopyBinaryToTarget => match &paths.install_target {
                Some(target) => Some(
                    Operation::CopyFile { from: paths.staged_binary.clone(), to: target.clone() },
                ),
                None => None,
            },
            UpdateAction::MakeTargetExecutable => match &paths.install_target {
                Some(target) => {
                    let mut args: Vec<String> = Vec::new();
                    assert(texts(args@) =~= Seq::<Seq<char>>::empty());
                    push_arg(&mut args, "u+x");
                    push_arg(&mut args, target.as_str());
                    assert(texts(args@) =~= seq!["u+x"@, target@]);
                    Some(Operation::Run { command: Command::plain("chmod", args) })
                },
                None => None,
            },
            UpdateAction::WriteInstalledInfo => Some(
                Operation::WriteBuildInfo {
                    path: paths.installed_info.clone(),
                    info: self.latest.clone(),
                },
            ),
            UpdateAction::CheckDataDir => match &paths.data_dir {
                Some(dir) => Some(Operation::IsDir { path: dir.clone() }),
                None => None,
            },
            UpdateAction::CheckOldDataDir => match &paths.old_data_dir {
                Some(dir) => Some(Operation::IsDir { path: dir.clone() }),
                None => None,
            },
            UpdateAction::RemoveOldDataDir => match &paths.old_data_dir {
                Some(dir) => Some(Operation::RemoveDirAll { path: dir.clone() }),
                None => None,
            },
            UpdateAction::RotateDataDir => rename_between(&paths.data_dir, &paths.old_data_dir),
            UpdateAction::SetRebootPending => Some(Operation::SetRebootPending),
            UpdateAction::RequestReboot => Some(Operation::RequestReboot),
            UpdateAction::StopBackend => Some(
                Operation::Run { command: Command::sudo(paths.stop_backend.as_str()) },
            ),
            UpdateAction::StartBackend => Some(
                Operation::Run { command: Command::sudo(paths.start_backend.as_str()) },
            ),
            UpdateAction::Finish(_) => None,
        }
    }
}

} // verus!
