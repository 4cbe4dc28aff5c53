//! The life of the supervisor: in which order it starts its parts, what it
//! does while it waits for the storage to open, and in which order it stops.

use crate::config::Config;
use vstd::prelude::*;

verus! {

/// How long the supervisor waits before it tries to mount again, in seconds.
pub const MOUNT_RETRY_SECONDS: u64 = 3600;

/// One step in the life of the supervisor.
#[derive(Clone, Copy, Debug, PartialEq, Eq, Structural)]
pub enum ServerStep {
    /// Initialize logging and print the build identification.
    InitLogging,
    /// Build the quit channel that every part subscribes to.
    CreateQuitChannel,
    /// Map the termination and the interrupt signal to "quit".
    InstallSignalHandlers,
    StartBuildManager,
    /// Construct the client for the peers and the shared mount state.
    CreateApiClient,
    StartRebootManager,
    StartUpdateManager,
    /// Assemble the router and its state.
    CreateApp,
    /// Bind the TLS listener and the optional listener on the loopback address.
    BindListeners,
    /// Try to mount the secure storage.
    MountStorage,
    /// Wait an hour, or for the quit signal, before the next mount attempt.
    WaitBeforeMountRetry,
    /// Say whether the storage directory exists.
    CheckStorageDir,
    CreateStorageDir,
    /// Say whether the backend is installed.
    CheckBackendInstalled,
    StartBackend,
    /// Serve until the quit signal.
    WaitForQuit,
    /// Drop the quit channel's sender, which wakes every subscriber.
    DropQuitHandle,
    /// Wait for the listeners, which drain their connections first.
    JoinListeners,
    JoinBuildManager,
    JoinRebootManager,
    JoinUpdateManager,
    StopBackend,
    Unmount,
    /// Leave the process.
    Exit,
}

/// What a step came to.
#[derive(Clone, Copy, Debug, PartialEq, Eq, Structural)]
pub enum ServerEvent {
    /// The step was carried out.
    Done,
    /// The step failed.
    Failed,
    /// The answer to a question about a path.
    Exists(bool),
    /// The quit signal arrived.
    Quit,
}

impl ServerStep {
    /// The place of a step in the order of things. The two steps of the
    /// mount loop share the places between binding the listeners and the
    /// storage directory.
    pub open spec fn rank(self) -> nat {
        match self {
            ServerStep::InitLogging => 0,
            ServerStep::CreateQuitChannel => 1,
            ServerStep::InstallSignalHandlers => 2,
            ServerStep::StartBuildManager => 3,
            ServerStep::CreateApiClient => 4,
            ServerStep::StartRebootManager => 5,
            ServerStep::StartUpdateManager => 6,
            ServerStep::CreateApp => 7,
            ServerStep::BindListeners => 8,
            ServerStep::MountStorage => 9,
            ServerStep::WaitBeforeMountRetry => 10,
            ServerStep::CheckStorageDir => 11,
            ServerStep::CreateStorageDir => 12,
            ServerStep::CheckBackendInstalled => 13,
            ServerStep::StartBackend => 14,
            ServerStep::WaitForQuit => 15,
            ServerStep::DropQuitHandle => 16,
            ServerStep::JoinListeners => 17,
            ServerStep::JoinBuildManager => 18,
            ServerStep::JoinRebootManager => 19,
            ServerStep::JoinUpdateManager => 20,
            ServerStep::StopBackend => 21,
            ServerStep::Unmount => 22,
            ServerStep::Exit => 23,
        }
    }
}

/// The supervisor: the step it is at, and what of the configuration decides
/// which steps it takes.
#[derive(Clone, Copy, Debug, PartialEq, Eq, Structural)]
pub struct AppServer {
    /// The step that is being carried out.
    pub step: ServerStep,
    /// The configuration has a section for the secure storage.
    pub secure_storage: bool,
    /// The configuration has a section for the update provider.
    pub update_provider: bool,
}

impl AppServer {
    /// The first step towards the backend: it is only started on a node
    /// that updates software.
    pub open spec fn backend_entry(self) -> ServerStep {
        if self.update_provider {
            ServerStep::CheckBackendInstalled
        } else {
            ServerStep::WaitForQuit
        }
    }

    /// The step after the managers are joined.
    pub open spec fn unmount_entry(self) -> ServerStep {
        if self.secure_storage {
            ServerStep::Unmount
        } else {
            ServerStep::Exit
        }
    }

    /// Whether `event` can be what the current step came to.
    pub open spec fn answers(self, event: ServerEvent) -> bool {
        match self.step {
            ServerStep::MountStorage
            | ServerStep::CreateStorageDir
            | ServerStep::StartBackend
            | ServerStep::StopBackend
            | ServerStep::Unmount => event == ServerEvent::Done || event == ServerEvent::Failed,
            ServerStep::WaitBeforeMountRetry => event == ServerEvent::Done || event
                == ServerEvent::Quit,
            ServerStep::CheckStorageDir | ServerStep::CheckBackendInstalled => event is Exists,
            ServerStep::WaitForQuit => event == ServerEvent::Quit,
            ServerStep::Exit => false,
            _ => event == ServerEvent::Done,
        }
    }

    /// The step that follows the current one, given what it came to.
    pub open spec fn next_step(self, event: ServerEvent) -> ServerStep {
        match self.step {
            ServerStep::InitLogging => ServerStep::CreateQuitChannel,
            ServerStep::CreateQuitChannel => ServerStep::InstallSignalHandlers,
            ServerStep::InstallSignalHandlers => ServerStep::StartBuildManager,
            ServerStep::StartBuildManager => ServerStep::CreateApiClient,
            ServerStep::CreateApiClient => ServerStep::StartRebootManager,
            ServerStep::StartRebootManager => ServerStep::StartUpdateManager,
            ServerStep::StartUpdateManager => ServerStep::CreateApp,
            ServerStep::CreateApp => ServerStep::BindListeners,
            ServerStep::BindListeners => if self.secure_storage {
                ServerStep::MountStorage
            } else {
                ServerStep::CheckStorageDir
            },
            ServerStep::MountStorage => if event == ServerEvent::Done {
                ServerStep::CheckStorageDir
            } else {
                ServerStep::WaitBeforeMountRetry
            },
            ServerStep::WaitBeforeMountRetry => if event == ServerEvent::Quit {
                ServerStep::Exit
            } else {
                ServerStep::MountStorage
            },
            ServerStep::CheckStorageDir => if event == ServerEvent::Exists(true) {
                self.backend_entry()
            } else {
                ServerStep::CreateStorageDir
            },
            ServerStep::CreateStorageDir => self.backend_entry(),
            ServerStep::CheckBackendInstalled => if event == ServerEvent::Exists(true) {
                ServerStep::StartBackend
            } else {
                ServerStep::WaitForQuit
            },
            ServerStep::StartBackend => ServerStep::WaitForQuit,
            ServerStep::WaitForQuit => ServerStep::DropQuitHandle,
            ServerStep::DropQuitHandle => ServerStep::JoinListeners,
            ServerStep::JoinListeners => ServerStep::JoinBuildManager,
            ServerStep::JoinBuildManager => ServerStep::JoinRebootManager,
            ServerStep::JoinRebootManager => ServerStep::JoinUpdateManager,
            ServerStep::JoinUpdateManager => if self.update_provider {
                ServerStep::StopBackend
            } else {
                self.unmount_entry()
            },
            ServerStep::StopBackend => self.unmount_entry(),
            ServerStep::Unmount => ServerStep::Exit,
            ServerStep::Exit => ServerStep::Exit,
        }
    }

    /// The supervisor at its first step.
    pub fn new(config: &Config) -> (r: AppServer)
        ensures
            r == (AppServer {
                step: ServerStep::InitLogging,
                secure_storage: config.file().secure_storage is Some,
                update_provider: config.file().software_update_provider is Some,
            }),
    {
        AppServer {
            step: ServerStep::InitLogging,
            secure_storage: config.secure_storage_config().is_some(),
            update_provider: config.software_update_provider().is_some(),
        }
    }

    /// Whether `event` can be what the current step came to.
    pub fn accepts(&self, event: ServerEvent) -> (r: bool)
        ensures
            r == self.answers(event),
    {
        match self.step {
            ServerStep::MountStorage
            | ServerStep::CreateStorageDir
            | ServerStep::StartBackend
            | ServerStep::StopBackend
            | ServerStep::Unmount => event == ServerEvent::Done || event == ServerEvent::Failed,
            ServerStep::WaitBeforeMountRetry => event == ServerEvent::Done || event
                == ServerEvent::Quit,
            ServerStep::CheckStorageDir | ServerStep::CheckBackendInstalled => match event {
                ServerEvent::Exists(_) => true,
                _ => false,
            },
            ServerStep::WaitForQuit => event == ServerEvent::Quit,
            ServerStep::Exit => false,
            _ => event == ServerEvent::Done,
        }
    }

    fn backend_step(&self) -> (r: ServerStep)
        ensures
            r == self.backend_entry(),
    {
        if self.update_provider {
            ServerStep::CheckBackendInstalled
        } else {
            ServerStep::WaitForQuit
        }
    }

    fn unmount_step(&self) -> (r: ServerStep)
        ensures
            r == self.unmount_entry(),
    {
        if self.secure_storage {
            ServerStep::Unmount
        } else {
            ServerStep::Exit
        }
    }

    /// Takes what the current step came to and moves on to the next step. A
    /// step that failed is logged and does not stop the supervisor, but for
    /// the mount: the supervisor does not go on before the storage is open.
    pub fn run(&mut self, event: ServerEvent) -> (r: ServerStep)
        requires
            old(self).answers(event),
        ensures
            r == old(self).next_step(event),
            *final(self) == (AppServer { step: r, ..*old(self) }),
    {
        let next = match self.step {
            ServerStep::InitLogging => ServerStep::CreateQuitChannel,
            ServerStep::CreateQuitChannel => ServerStep::InstallSignalHandlers,
            ServerStep::InstallSignalHandlers => ServerStep::StartBuildManager,
            ServerStep::StartBuildManager => ServerStep::CreateApiClient,
            ServerStep::CreateApiClient => ServerStep::StartRebootManager,
            ServerStep::StartRebootManager => ServerStep::StartUpdateManager,
            ServerStep::StartUpdateManager => ServerStep::CreateApp,
            ServerStep::CreateApp => ServerStep::BindListeners,
            ServerStep::BindListeners => {
                if self.secure_storage {
                    ServerStep::MountStorage
                } else {
                    ServerStep::CheckStorageDir
                }
            },
            ServerStep::MountStorage => {
                if event == ServerEvent::Done {
                    ServerStep::CheckStorageDir
                } else {
                    ServerStep::WaitBeforeMountRetry
                }
            },
            ServerStep::WaitBeforeMountRetry => {
                if event == ServerEvent::Quit {
                    ServerStep::Exit
                } else {
                    ServerStep::MountStorage
                }
            },
            ServerStep::CheckStorageDir => {
                if event == ServerEvent::Exists(true) {
                    self.backend_step()
                } else {
                    ServerStep::CreateStorageDir
                }
            },
            ServerStep::CreateStorageDir => self.backend_step(),
            ServerStep::CheckBackendInstalled => {
                if event == ServerEvent::Exists(true) {
                    ServerStep::StartBackend
                } else {
                    ServerStep::WaitForQuit
                }
            },
            ServerStep::StartBackend => ServerStep::WaitForQuit,
            ServerStep::WaitForQuit => ServerStep::DropQuitHandle,
            ServerStep::DropQuitHandle => ServerStep::JoinListeners,
            ServerStep::JoinListeners => ServerStep::JoinBuildManager,
            ServerStep::JoinBuildManager => ServerStep::JoinRebootManager,
            ServerStep::JoinRebootManager => ServerStep::JoinUpdateManager,
            ServerStep::JoinUpdateManager => {
                if self.update_provider {
                    ServerStep::StopBackend
                } else {
                    self.unmount_step()
                }
            },
            ServerStep::StopBackend => self.unmount_step(),
            ServerStep::Unmount => ServerStep::Exit,
            ServerStep::Exit => ServerStep::Exit,
        };
        self.step = next;
        next
    }
}

/// The supervisor never goes back. Every step leads to a later one; only a
/// failed mount leads to the wait and the wait back to the mount, and the
/// supervisor stays in that loop until the storage is open or it is told to
/// quit.
pub proof fn lemma_steps_are_ordered(server: AppServer, event: ServerEvent)
    requires
        server.answers(event),
    ensures
        server.next_step(event).rank() > server.step.rank() || (server.step
            == ServerStep::WaitBeforeMountRetry && server.next_step(event)
            == ServerStep::MountStorage),
        server.step == ServerStep::MountStorage && event != ServerEvent::Done
            ==> server.next_step(event) == ServerStep::WaitBeforeMountRetry,
{
}

/// The shutdown after the quit signal: the quit channel is dropped, the
/// listeners are joined, then the three managers, then the backend is
/// stopped where the node runs one, then the storage is unmounted where the
/// node has one, and then the process ends. A step that fails changes
/// nothing about the order.
pub proof fn lemma_shutdown_order(server: AppServer, backend: ServerEvent, unmount: ServerEvent)
    requires
        server.step == ServerStep::WaitForQuit,
        backend == ServerEvent::Done || backend == ServerEvent::Failed,
        unmount == ServerEvent::Done || unmount == ServerEvent::Failed,
    ensures
        ({
            let at = |step: ServerStep| AppServer { step, ..server };
            let after_managers = at(ServerStep::JoinUpdateManager).next_step(ServerEvent::Done);
            let after_backend = if server.update_provider {
                at(ServerStep::StopBackend).next_step(backend)
            } else {
                after_managers
            };
            &&& server.next_step(ServerEvent::Quit) == ServerStep::DropQuitHandle
            &&& at(ServerStep::DropQuitHandle).next_step(ServerEvent::Done)
                == ServerStep::JoinListeners
            &&& at(ServerStep::JoinListeners).next_step(ServerEvent::Done)
                == ServerStep::JoinBuildManager
            &&& at(ServerStep::JoinBuildManager).next_step(ServerEvent::Done)
                == ServerStep::JoinRebootManager
            &&& at(ServerStep::JoinRebootManager).next_step(ServerEvent::Done)
                == ServerStep::JoinUpdateManager
            &&& server.update_provider ==> after_managers == ServerStep::StopBackend
            &&& after_backend == (if server.secure_storage {
                ServerStep::Unmount
            } else {
                ServerStep::Exit
            })
            &&& at(ServerStep::Unmount).next_step(unmount) == ServerStep::Exit
        }),
{
}

/// The connections of a listener. The listener stops accepting when it is
/// told to quit, and it is done when the last connection it accepted has
/// ended.
#[derive(Clone, Copy, Debug, PartialEq, Eq, Structural)]
pub struct ConnectionDrain {
    /// The listener still accepts connections.
    pub accepting: bool,
    /// The connections that were accepted and have not ended.
    pub open: u64,
}

impl ConnectionDrain {
    /// A listener that has just been bound.
    pub fn new() -> (r: ConnectionDrain)
        ensures
            r == (ConnectionDrain { accepting: true, open: 0 }),
    {
        ConnectionDrain { accepting: true, open: 0 }
    }

    /// A connection was accepted. It is counted unless the listener has
    /// stopped accepting or counts as many as it can.
    pub fn accept(&mut self) -> (r: bool)
        ensures
            r == (old(self).accepting && old(self).open < u64::MAX),
            *final(self) == (if r {
                ConnectionDrain { open: (old(self).open + 1) as u64, ..*old(self) }
            } else {
                *old(self)
            }),
    {
        if self.accepting && self.open < u64::MAX {
            self.open = self.open + 1;
            true
        } else {
            false
        }
    }

    /// A connection has ended.
    pub fn close(&mut self)
        requires
            old(self).open > 0,
        ensures
            *final(self) == (ConnectionDrain { open: (old(self).open - 1) as u64, ..*old(self) }),
    {
        self.open = self.open - 1;
    }

    /// The quit signal arrived: no further connection is accepted.
    pub fn quit(&mut self)
        ensures
            *final(self) == (ConnectionDrain { accepting: false, ..*old(self) }),
    {
        self.accepting = false;
    }

    /// Whether the listener's task may end: it accepts no more, and every
    /// connection has ended.
    pub fn is_drained(&self) -> (r: bool)
        ensures
            r == (!self.accepting && self.open == 0),
    {
        !self.accepting && self.open == 0
    }
}

/// The value of a result that cannot be an error.
pub fn unwrap_infallible_result<T>(r: Result<T, core::convert::Infallible>) -> (v: T)
    requires
        r is Ok,
    ensures
        r == Ok::<T, core::convert::Infallible>(v),
{
    match r {
        Ok(v) => v,
        Err(_) => vstd::pervasive::unreached(),
    }
}

} // verus!
