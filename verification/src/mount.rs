//! Mount secure file storage if needed
//!
//! The mount manager decides how the encrypted storage is opened: with the key
//! that a peer hands out, with a key from the configuration, or, while the
//! storage still has its default password, with that password. How the storage
//! was opened is recorded in the process-wide [`MountState`].

use crate::config::ScriptLocations;
use crate::operation::{Command, CommandView, Operation, OperationView};
use crate::step::{ExitCode, Outcome, OutcomeView};
use crate::text::optional_text;
use vstd::prelude::*;

verus! {

/// The password that freshly prepared storage has.
pub const DEFAULT_PASSWORD: &'static str = "password\n";

#[derive(Clone, Copy, Debug, PartialEq, Eq)]
pub enum MountError {
    GetKeyFailed,
    ProcessStartFailed,
    ProcessStdinFailed,
    /// The script ended unsuccessfully, with this exit code.
    CommandFailed(ExitCode),
}

impl MountError {
    /// The text of the error.
    pub fn message(&self) -> (r: &'static str)
        ensures
            r@ == (match *self {
                MountError::GetKeyFailed => "Getting key failed"@,
                MountError::ProcessStartFailed => "Process start failed"@,
                MountError::ProcessStdinFailed => "Process stdin writing failed"@,
                MountError::CommandFailed(_) => "Command failed with exit status"@,
            }),
    {
        match self {
            MountError::GetKeyFailed => "Getting key failed",
            MountError::ProcessStartFailed => "Process start failed",
            MountError::ProcessStdinFailed => "Process stdin writing failed",
            MountError::CommandFailed(_) => "Command failed with exit status",
        }
    }
}

#[derive(Clone, Copy, Debug, PartialEq, Eq, Structural)]
pub enum MountMode {
    NotMounted,
    MountedWithRemoteKey,
    MountedWithLocalKey,
    MountedWithDefaultKey,
    /// Secure storage was mounted before app-manager
    /// started, so key is unknown.
    MountedWithUnknownKey,
}

impl MountMode {
    /// Whether the mode says that the storage is open.
    pub open spec fn is_mounted(self) -> bool {
        self != MountMode::NotMounted
    }
}

/// How the secure storage was opened. It starts as not mounted, and only a
/// successful mount changes it.
#[derive(Clone, Copy, Debug)]
pub struct MountState {
    mode: MountMode,
}

impl View for MountState {
    type V = MountMode;

    closed spec fn view(&self) -> MountMode {
        self.mode
    }
}

impl MountState {
    pub fn new() -> (r: MountState)
        ensures
            r@ == MountMode::NotMounted,
    {
        MountState { mode: MountMode::NotMounted }
    }

    pub fn mode(&self) -> (r: MountMode)
        ensures
            r == self@,
    {
        self.mode
    }

    fn set_mode(&mut self, mode: MountMode)
        ensures
            final(self)@ == mode,
    {
        self.mode = mode;
    }
}

impl Default for MountState {
    fn default() -> (r: MountState)
        ensures
            r@ == MountMode::NotMounted,
    {
        MountState::new()
    }
}

/// The process-wide state.
pub struct State {
    pub mount_state: MountState,
}

impl State {
    pub fn new() -> (r: State)
        ensures
            r.mount_state@ == MountMode::NotMounted,
    {
        State { mount_state: MountState::new() }
    }
}

/// What the mount manager asks its caller to do.
#[derive(Clone, Copy, Debug, PartialEq, Eq)]
pub enum MountAction {
    /// Say whether the availability-check path exists.
    CheckAvailability,
    /// Ask the key provider for this node's key; the answer is its text.
    FetchRemoteKey,
    /// Run the script that tells whether the storage still has the default
    /// password; it ends successfully if so.
    CheckDefaultPassword,
    /// Run the script that changes the password, with [`MountManager::key`] as
    /// its input.
    ChangePassword,
    /// Run the script that opens the storage, with [`MountManager::key`] as
    /// its input.
    OpenStorage,
    /// Run the script that closes the storage.
    CloseStorage,
    /// Nothing more to do: this is how it ended.
    Finish(Result<(), MountError>),
}

/// What a mount manager holds.
pub struct MountManagerView {
    /// The action whose outcome the manager waits for.
    pub awaiting: MountAction,
    /// The manager closes the storage rather than opening it.
    pub unmounting: bool,
    /// The key from the configuration, if it has one.
    pub local_key: Option<Seq<char>>,
    /// The key that the scripts are fed.
    pub key: Option<Seq<char>>,
    /// How the storage will have been opened once the open script succeeds.
    pub candidate: MountMode,
}

impl MountManagerView {
    /// A key is chosen exactly when a mounted mode is, and the scripts that
    /// take a key are only run with one.
    pub open spec fn wf(self) -> bool {
        &&& self.key is Some <==> (self.candidate.is_mounted() && self.candidate
            != MountMode::MountedWithUnknownKey)
        &&& match self.awaiting {
            MountAction::CheckAvailability => self.key is None && self.candidate
                == MountMode::NotMounted,
            MountAction::FetchRemoteKey => !self.unmounting && self.key is None && self.candidate
                == MountMode::NotMounted,
            MountAction::CheckDefaultPassword => !self.unmounting && self.candidate
                != MountMode::MountedWithDefaultKey,
            MountAction::ChangePassword => !self.unmounting && self.key is Some && self.candidate
                != MountMode::MountedWithDefaultKey,
            MountAction::OpenStorage => !self.unmounting && self.key is Some,
            MountAction::CloseStorage => self.unmounting,
            MountAction::Finish(r) => r is Ok && !self.unmounting ==> self.candidate.is_mounted(),
        }
        &&& self.unmounting ==> self.key is None
        &&& !self.unmounting ==> self.awaiting != MountAction::CloseStorage
        &&& self.candidate == MountMode::MountedWithUnknownKey ==> self.awaiting
            == MountAction::Finish(Ok(()))
    }

    /// Whether `outcome` is an answer to the action that the manager waits for.
    pub open spec fn answers(self, outcome: OutcomeView) -> bool {
        match self.awaiting {
            MountAction::CheckAvailability => outcome.of_check(),
            MountAction::FetchRemoteKey => outcome.of_text_fetch(),
            MountAction::CheckDefaultPassword => outcome.of_process(),
            MountAction::ChangePassword => outcome.of_fed_process(),
            MountAction::OpenStorage => outcome.of_fed_process(),
            MountAction::CloseStorage => outcome.of_process(),
            MountAction::Finish(_) => false,
        }
    }

    /// The error that a failed run of a script stands for.
    pub open spec fn script_error(outcome: OutcomeView) -> MountError {
        match outcome {
            OutcomeView::StdinFailed => MountError::ProcessStdinFailed,
            OutcomeView::Exited(code) => MountError::CommandFailed(code),
            _ => MountError::ProcessStartFailed,
        }
    }

    /// The manager after it was told `outcome`; the action it asks for next is
    /// the one it then waits for.
    pub open spec fn next(self, outcome: OutcomeView) -> MountManagerView {
        match self.awaiting {
            MountAction::CheckAvailability => if self.unmounting {
                if outcome == OutcomeView::Exists(true) {
                    MountManagerView { awaiting: MountAction::CloseStorage, ..self }
                } else {
                    MountManagerView { awaiting: MountAction::Finish(Ok(())), ..self }
                }
            } else if outcome == OutcomeView::Exists(true) {
                MountManagerView {
                    awaiting: MountAction::Finish(Ok(())),
                    candidate: MountMode::MountedWithUnknownKey,
                    ..self
                }
            } else {
                MountManagerView { awaiting: MountAction::FetchRemoteKey, ..self }
            },
            MountAction::FetchRemoteKey => match outcome {
                OutcomeView::Text(key) => MountManagerView {
                    awaiting: MountAction::CheckDefaultPassword,
                    key: Some(key),
                    candidate: MountMode::MountedWithRemoteKey,
                    ..self
                },
                _ => match self.local_key {
                    Some(text) => MountManagerView {
                        awaiting: MountAction::CheckDefaultPassword,
                        key: Some(text),
                        candidate: MountMode::MountedWithLocalKey,
                        ..self
                    },
                    None => MountManagerView {
                        awaiting: MountAction::CheckDefaultPassword,
                        ..self
                    },
                },
            },
            MountAction::CheckDefaultPassword => match outcome {
                OutcomeView::Succeeded => if self.key is Some {
                    MountManagerView { awaiting: MountAction::ChangePassword, ..self }
                } else {
                    MountManagerView {
                        awaiting: MountAction::OpenStorage,
                        key: Some(DEFAULT_PASSWORD@),
                        candidate: MountMode::MountedWithDefaultKey,
                        ..self
                    }
                },
                OutcomeView::Exited(_) => if self.key is Some {
                    MountManagerView { awaiting: MountAction::OpenStorage, ..self }
                } else {
                    MountManagerView {
                        awaiting: MountAction::Finish(Err(MountError::GetKeyFailed)),
                        ..self
                    }
                },
                _ => MountManagerView {
                    awaiting: MountAction::Finish(Err(MountError::ProcessStartFailed)),
                    ..self
                },
            },
            MountAction::ChangePassword => match outcome {
                OutcomeView::Succeeded => MountManagerView {
                    awaiting: MountAction::OpenStorage,
                    ..self
                },
                _ => MountManagerView {
                    awaiting: MountAction::Finish(Err(Self::script_error(outcome))),
                    ..self
                },
            },
            MountAction::OpenStorage | MountAction::CloseStorage => match outcome {
                OutcomeView::Succeeded => MountManagerView {
                    awaiting: MountAction::Finish(Ok(())),
                    ..self
                },
                _ => MountManagerView {
                    awaiting: MountAction::Finish(Err(Self::script_error(outcome))),
                    ..self
                },
            },
            MountAction::Finish(_) => self,
        }
    }

    /// The mount mode on record after the manager was told `outcome`: a mount
    /// that just succeeded records how the storage was opened, and nothing
    /// else touches the record.
    pub open spec fn mode_after(self, outcome: OutcomeView, mode: MountMode) -> MountMode {
        if !self.unmounting && self.next(outcome).awaiting == MountAction::Finish(Ok(())) {
            self.next(outcome).candidate
        } else {
            mode
        }
    }
}

/// Decides, step by step, how the secure storage is opened or closed.
pub struct MountManager {
    awaiting: MountAction,
    unmounting: bool,
    local_key: Option<String>,
    key: Option<String>,
    candidate: MountMode,
}

impl View for MountManager {
    type V = MountManagerView;

    closed spec fn view(&self) -> MountManagerView {
        MountManagerView {
            awaiting: self.awaiting,
            unmounting: self.unmounting,
            local_key: optional_text(self.local_key),
            key: optional_text(self.key),
            candidate: self.candidate,
        }
    }
}

fn script_error(outcome: &Outcome) -> (r: MountError)
    ensures
        r == MountManagerView::script_error(outcome@),
{
    match outcome {
        Outcome::StdinFailed => MountError::ProcessStdinFailed,
        Outcome::Exited(code) => MountError::CommandFailed(*code),
        _ => MountError::ProcessStartFailed,
    }
}

impl MountManager {
    /// Starts a mount attempt. `local_key` is the key that the configuration
    /// offers for the case that the key provider cannot be reached.
    pub fn mount_if_needed(local_key: Option<String>) -> (r: MountManager)
        ensures
            r@ == (MountManagerView {
                awaiting: MountAction::CheckAvailability,
                unmounting: false,
                local_key: optional_text(local_key),
                key: None,
                candidate: MountMode::NotMounted,
            }),
            r@.wf(),
    {
        MountManager {
            awaiting: MountAction::CheckAvailability,
            unmounting: false,
            local_key,
            key: None,
            candidate: MountMode::NotMounted,
        }
    }

    /// Starts the unmount of the shutdown path.
    pub fn unmount_if_needed() -> (r: MountManager)
        ensures
            r@ == (MountManagerView {
                awaiting: MountAction::CheckAvailability,
                unmounting: true,
                local_key: None,
                key: None,
                candidate: MountMode::NotMounted,
            }),
            r@.wf(),
    {
        MountManager {
            awaiting: MountAction::CheckAvailability,
            unmounting: true,
            local_key: None,
            key: None,
            candidate: MountMode::NotMounted,
        }
    }

    /// The action whose outcome the manager waits for.
    pub fn awaiting(&self) -> (r: MountAction)
        ensures
            r == self@.awaiting,
    {
        self.awaiting
    }

    /// The key that the password and open scripts are fed.
    pub fn key(&self) -> (r: Option<&String>)
        ensures
            r is Some == self@.key is Some,
            r is Some ==> r->0@ == self@.key->0,
    {
        self.key.as_ref()
    }

    /// Whether `outcome` is an answer to the action that the manager waits for.
    pub fn accepts(&self, outcome: &Outcome) -> (r: bool)
        ensures
            r == self@.answers(outcome@),
    {
        match self.awaiting {
            MountAction::CheckAvailability => outcome.of_check(),
            MountAction::FetchRemoteKey => outcome.of_text_fetch(),
            MountAction::CheckDefaultPassword => outcome.of_process(),
            MountAction::ChangePassword => outcome.of_fed_process(),
            MountAction::OpenStorage => outcome.of_fed_process(),
            MountAction::CloseStorage => outcome.of_process(),
            MountAction::Finish(_) => false,
        }
    }

    /// Takes the outcome of the action asked for last and answers with the
    /// next action. A mount that succeeded is recorded in `state`; a mode on
    /// record is never set back to not mounted.
    pub fn step(&mut self, state: &mut State, outcome: Outcome) -> (action: MountAction)
        requires
            old(self)@.wf(),
            old(self)@.answers(outcome@),
        ensures
            final(self)@ == old(self)@.next(outcome@),
            action == final(self)@.awaiting,
            final(self)@.wf(),
            final(state).mount_state@ == old(self)@.mode_after(outcome@, old(state).mount_state@),
            old(state).mount_state@.is_mounted() ==> final(state).mount_state@.is_mounted(),
    {
        let action = match self.awaiting {
            MountAction::CheckAvailability => {
                let exists = match outcome {
                    Outcome::Exists(true) => true,
                    _ => false,
                };
                if self.unmounting {
                    if exists {
                        MountAction::CloseStorage
                    } else {
                        MountAction::Finish(Ok(()))
                    }
                } else if exists {
                    self.candidate = MountMode::MountedWithUnknownKey;
                    MountAction::Finish(Ok(()))
                } else {
                    MountAction::FetchRemoteKey
                }
            },
            MountAction::FetchRemoteKey => {
                match outcome {
                    Outcome::Text(key) => {
                        self.key = Some(key);
                        self.candidate = MountMode::MountedWithRemoteKey;
                    },
                    _ => {
                        let local = match &self.local_key {
                            Some(text) => Some(text.clone()),
                            None => None,
                        };
                        if local.is_some() {
                            self.key = local;
                            self.candidate = MountMode::MountedWithLocalKey;
                        }
                    },
                }
                MountAction::CheckDefaultPassword
            },
            MountAction::CheckDefaultPassword => match outcome {
                Outcome::Succeeded => {
                    if self.key.is_some() {
                        MountAction::ChangePassword
                    } else {
                        self.key = Some(String::from_str(DEFAULT_PASSWORD));
                        self.candidate = MountMode::MountedWithDefaultKey;
                        MountAction::OpenStorage
                    }
                },
                Outcome::Exited(_) => {
                    if self.key.is_some() {
                        MountAction::OpenStorage
                    } else {
                        MountAction::Finish(Err(MountError::GetKeyFailed))
                    }
                },
                _ => MountAction::Finish(Err(MountError::ProcessStartFailed)),
            },
            MountAction::ChangePassword => match outcome {
                Outcome::Succeeded => MountAction::OpenStorage,
                _ => MountAction::Finish(Err(script_error(&outcome))),
            },
            MountAction::OpenStorage | MountAction::CloseStorage => match outcome {
                Outcome::Succeeded => MountAction::Finish(Ok(())),
                _ => MountAction::Finish(Err(script_error(&outcome))),
            },
            MountAction::Finish(r) => MountAction::Finish(r),
        };
        self.awaiting = action;
        if !self.unmounting {
            match action {
                MountAction::Finish(Ok(())) => {
                    state.mount_state.set_mode(self.candidate);
                },
                _ => {},
            }
        }
        action
    }
}

impl MountManagerView {
    /// What the action that the manager waits for means: which path to look
    /// at, and which script to run with which input. The scripts are run
    /// through `sudo`.
    pub open spec fn operation(self, scripts: ScriptLocations, availability_check_path: Seq<char>) -> Option<
        OperationView,
    > {
        match self.awaiting {
            MountAction::CheckAvailability => Some(
                OperationView::PathExists { path: availability_check_path },
            ),
            MountAction::FetchRemoteKey => Some(OperationView::FetchEncryptionKey),
            MountAction::CheckDefaultPassword => Some(
                OperationView::Run {
                    command: CommandView::plain(
                        "sudo"@,
                        seq![scripts.is_default_encryption_password@],
                    ),
                },
            ),
            MountAction::ChangePassword => match self.key {
                Some(key) => Some(
                    OperationView::RunFed {
                        command: CommandView::plain(
                            "sudo"@,
                            seq![scripts.change_encryption_password@],
                        ),
                        input: key,
                    },
                ),
                None => None,
            },
            MountAction::OpenStorage => match self.key {
                Some(key) => Some(
                    OperationView::RunFed {
                        command: CommandView::plain("sudo"@, seq![scripts.open_encryption@]),
                        input: key,
                    },
                ),
                None => None,
            },
            MountAction::CloseStorage => Some(
                OperationView::Run {
                    command: CommandView::plain("sudo"@, seq![scripts.close_encryption@]),
                },
            ),
            MountAction::Finish(_) => None,
        }
    }
}

impl MountManager {
    /// The operation that carries out the action that the manager waits for.
    pub fn operation(&self, scripts: &ScriptLocations, availability_check_path: &str) -> (r: Option<
        Operation,
    >)
        ensures
            r is Some == self@.operation(*scripts, availability_check_path@) is Some,
            r is Some ==> r->0@ == self@.operation(*scripts, availability_check_path@)->0,
    {
        match self.awaiting {
            MountAction::CheckAvailability => Some(
                Operation::PathExists { path: String::from_str(availability_check_path) },
            ),
            MountAction::FetchRemoteKey => Some(Operation::FetchEncryptionKey),
            MountAction::CheckDefaultPassword => Some(
                Operation::Run {
                    command: Command::sudo(scripts.is_default_encryption_password()),
                },
            ),
            MountAction::ChangePassword => match &self.key {
                Some(key) => Some(
                    Operation::RunFed {
                        command: Command::sudo(scripts.change_encryption_password()),
                        input: key.clone(),
                    },
                ),
                None => None,
            },
            MountAction::OpenStorage => match &self.key {
                Some(key) => Some(
                    Operation::RunFed {
                        command: Command::sudo(scripts.open_encryption()),
                        input: key.clone(),
                    },
                ),
                None => None,
            },
            MountAction::CloseStorage => Some(
                Operation::Run { command: Command::sudo(scripts.close_encryption()) },
            ),
            MountAction::Finish(_) => None,
        }
    }
}

/// The storage is only ever recorded as opened with the remote key when the
/// key provider handed the key out in this attempt, and that key is then the
/// one the scripts are fed.
pub proof fn lemma_remote_mode_needs_remote_key(m: MountManagerView, outcome: OutcomeView)
    requires
        m.wf(),
        m.answers(outcome),
        m.next(outcome).candidate == MountMode::MountedWithRemoteKey,
    ensures
        m.candidate == MountMode::MountedWithRemoteKey || (m.awaiting
            == MountAction::FetchRemoteKey && outcome is Text && m.next(outcome).key == Some(
            outcome->Text_0,
        )),
{
}

/// A record of a mounted storage is never set back: whatever a manager is
/// told, a mode other than not mounted stays other than not mounted.
pub proof fn lemma_mounted_stays_mounted(m: MountManagerView, outcome: OutcomeView, mode: MountMode)
    requires
        m.wf(),
        m.answers(outcome),
        mode.is_mounted(),
    ensures
        m.mode_after(outcome, mode).is_mounted(),
        m.next(outcome).wf(),
{
}

/// One step of some mount manager: the manager as it was, and what it was
/// told.
pub struct MountStep {
    pub manager: MountManagerView,
    pub outcome: OutcomeView,
}

/// The mode on record after the first `n` of `steps`, which may belong to any
/// number of mount and unmount attempts.
pub open spec fn mode_after_steps(mode: MountMode, steps: Seq<MountStep>, n: int) -> MountMode
    decreases n,
{
    if n <= 0 {
        mode
    } else {
        steps[n - 1].manager.mode_after(
            steps[n - 1].outcome,
            mode_after_steps(mode, steps, n - 1),
        )
    }
}

/// Whether each of `steps` is a step that a manager can take.
pub open spec fn steps_allowed(steps: Seq<MountStep>) -> bool {
    forall|i: int|
        0 <= i < steps.len() ==> (#[trigger] steps[i]).manager.wf() && steps[i].manager.answers(
            steps[i].outcome,
        )
}

/// Once the record says that the storage is mounted, no later read finds it
/// not mounted: whatever attempts to mount or unmount follow, and however
/// they end.
pub proof fn lemma_no_read_finds_not_mounted_again(
    mode: MountMode,
    steps: Seq<MountStep>,
    set_at: int,
    read_at: int,
)
    requires
        steps_allowed(steps),
        0 <= set_at <= read_at <= steps.len(),
        mode_after_steps(mode, steps, set_at).is_mounted(),
    ensures
        mode_after_steps(mode, steps, read_at).is_mounted(),
    decreases read_at - set_at,
{
    if set_at < read_at {
        lemma_no_read_finds_not_mounted_again(mode, steps, set_at, read_at - 1);
        let step = steps[read_at - 1];
        lemma_mounted_stays_mounted(
            step.manager,
            step.outcome,
            mode_after_steps(mode, steps, read_at - 1),
        );
    }
}

/// An unmount never touches the record, and neither does a failed mount.
pub proof fn lemma_only_a_mount_records(m: MountManagerView, outcome: OutcomeView, mode: MountMode)
    requires
        m.wf(),
        m.answers(outcome),
        m.unmounting || m.next(outcome).awaiting != MountAction::Finish(Ok(())),
    ensures
        m.mode_after(outcome, mode) == mode,
{
}

} // verus!
