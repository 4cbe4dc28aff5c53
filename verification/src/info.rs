//! Get system info
//!
//! The diagnostics of a node are what a fixed set of commands print. The
//! commands are run one after the other; the first one that fails ends the
//! collection.

use crate::model::{
    CommandOutput,
    CommandOutputView,
    SystemInfo,
    SystemInfoList,
    SystemInfoView,
    command_output_views,
    system_info_views,
};
use crate::operation::{Command, CommandView, push_arg, texts};
use crate::step::{ExitCode, Outcome, OutcomeView};
use crate::text::{concat3, trim_text, trimmed};
use vstd::prelude::*;

verus! {

#[derive(Clone, Copy, Debug, PartialEq, Eq)]
pub enum SystemInfoError {
    ProcessStartFailed,
    ProcessWaitFailed,
    ProcessStdinFailed,
    /// The command ended unsuccessfully, with this exit code.
    CommandFailed(ExitCode),
    InvalidOutput,
    InvalidInput,
    InvalidPath,
    ApiRequest,
}

impl SystemInfoError {
    /// The text of the error.
    pub fn message(&self) -> (r: &'static str)
        ensures
            r@ == (match *self {
                SystemInfoError::ProcessStartFailed => "Process start failed"@,
                SystemInfoError::ProcessWaitFailed => "Process wait failed"@,
                SystemInfoError::ProcessStdinFailed => "Process stdin writing failed"@,
                SystemInfoError::CommandFailed(_) => "Command failed with exit status"@,
                SystemInfoError::InvalidOutput => "Invalid output"@,
                SystemInfoError::InvalidInput => "Invalid input"@,
                SystemInfoError::InvalidPath => "Invalid path"@,
                SystemInfoError::ApiRequest => "Api request failed"@,
            }),
    {
        match self {
            SystemInfoError::ProcessStartFailed => "Process start failed",
            SystemInfoError::ProcessWaitFailed => "Process wait failed",
            SystemInfoError::ProcessStdinFailed => "Process stdin writing failed",
            SystemInfoError::CommandFailed(_) => "Command failed with exit status",
            SystemInfoError::InvalidOutput => "Invalid output",
            SystemInfoError::InvalidInput => "Invalid input",
            SystemInfoError::InvalidPath => "Invalid path",
            SystemInfoError::ApiRequest => "Api request failed",
        }
    }
}

/// `words` in a row with one space between each two.
pub open spec fn spec_join_words(words: Seq<Seq<char>>) -> Seq<char>
    decreases words.len(),
{
    if words.len() == 0 {
        Seq::empty()
    } else if words.len() == 1 {
        words[0]
    } else {
        spec_join_words(words.drop_last()) + seq![' '] + words.last()
    }
}

/// The name under which the output of a command is reported: the program,
/// a space, and the arguments with a space between each two.
pub open spec fn command_name(command: CommandView) -> Seq<char> {
    command.program + seq![' '] + spec_join_words(command.args)
}

/// `words` in a row with one space between each two.
pub fn join_words(words: &Vec<String>) -> (r: String)
    ensures
        r@ == spec_join_words(texts(words@)),
{
    let mut joined = String::new();
    let mut i: usize = 0;
    proof {
        reveal_strlit(" ");
        assert(texts(words@).take(0) =~= Seq::<Seq<char>>::empty());
    }
    while i < words.len()
        invariant
            i <= words.len(),
            " "@ == seq![' '],
            joined@ == spec_join_words(texts(words@).take(i as int)),
        decreases words.len() - i,
    {
        proof {
            let next = texts(words@).take(i + 1);
            assert(next.drop_last() == texts(words@).take(i as int));
            assert(next.last() == words@[i as int]@);
            if i == 0 {
                assert(next[0] == words@[0]@);
                assert(Seq::<char>::empty() + words@[0]@ =~= words@[0]@);
            }
        }
        if i > 0 {
            joined.append(" ");
        }
        joined.append(words[i].as_str());
        i = i + 1;
    }
    proof {
        assert(texts(words@).take(words@.len() as int) == texts(words@));
    }
    joined
}

/// The report on what `command` printed.
pub fn command_output(command: &Command, output: String) -> (r: CommandOutput)
    ensures
        r@ == (CommandOutputView { name: command_name(command@), output: output@ }),
{
    let args = join_words(&command.args);
    proof {
        reveal_strlit(" ");
        assert(" "@ =~= seq![' ']);
    }
    CommandOutput { name: concat3(command.program.as_str(), " ", args.as_str()), output }
}

/// What the collection asks its caller to run.
#[derive(Clone, Copy, Debug, PartialEq, Eq)]
pub enum InfoAction {
    /// `df -h`
    Df,
    /// `df -hi`
    DfInodes,
    /// `uptime`
    Uptime,
    /// `free -h`
    Free,
    /// The script that prints the logs that only the superuser may read.
    PrintLogs,
    /// `whoami`
    Whoami,
    /// `top -bn 1 -u <user>`
    Top,
    /// `journalctl --no-pager -n 10 -u <service>` for the service at the index.
    Journalctl(usize),
    /// `hostname`
    Hostname,
    /// Nothing more to do: this is how the collection ended.
    Finish(Result<(), SystemInfoError>),
}

/// What the collection holds.
pub struct SystemInfoGetterView {
    /// The command whose output the collection waits for.
    pub awaiting: InfoAction,
    /// The script that prints the logs.
    pub print_logs_script: Seq<char>,
    /// The services whose journal is read.
    pub services: Seq<Seq<char>>,
    /// The user that runs the supervisor.
    pub username: Seq<char>,
    /// The name of the node.
    pub hostname: Seq<char>,
    /// What the script that prints the logs printed.
    pub print_logs: Option<CommandOutputView>,
    /// The reports that are in place.
    pub commands: Seq<CommandOutputView>,
}

impl SystemInfoGetterView {
    /// The command line of the action that the collection waits for.
    pub open spec fn command(self) -> Option<CommandView> {
        match self.awaiting {
            InfoAction::Df => Some(CommandView::plain("df"@, seq!["-h"@])),
            InfoAction::DfInodes => Some(CommandView::plain("df"@, seq!["-hi"@])),
            InfoAction::Uptime => Some(CommandView::plain("uptime"@, Seq::empty())),
            InfoAction::Free => Some(CommandView::plain("free"@, seq!["-h"@])),
            InfoAction::PrintLogs => Some(
                CommandView::plain("sudo"@, seq![self.print_logs_script]),
            ),
            InfoAction::Whoami => Some(CommandView::plain("whoami"@, Seq::empty())),
            InfoAction::Top => Some(
                CommandView::plain("top"@, seq!["-bn"@, "1"@, "-u"@, self.username]),
            ),
            InfoAction::Journalctl(i) => if i < self.services.len() {
                Some(
                    CommandView::plain(
                        "journalctl"@,
                        seq!["--no-pager"@, "-n"@, "10"@, "-u"@, self.services[i as int]],
                    ),
                )
            } else {
                None
            },
            InfoAction::Hostname => Some(CommandView::plain("hostname"@, Seq::empty())),
            InfoAction::Finish(_) => None,
        }
    }

    /// The services are read in their order, and none beyond the last.
    pub open spec fn wf(self) -> bool {
        match self.awaiting {
            InfoAction::Journalctl(i) => i < self.services.len(),
            InfoAction::Whoami | InfoAction::Top => self.print_logs is Some,
            _ => true,
        }
    }

    /// Whether `outcome` is an answer to the action that the collection waits for.
    pub open spec fn answers(self, outcome: OutcomeView) -> bool {
        !(self.awaiting is Finish) && outcome.of_captured_process()
    }

    /// The error that a failed run of a command stands for.
    pub open spec fn command_error(outcome: OutcomeView) -> SystemInfoError {
        match outcome {
            OutcomeView::Exited(code) => SystemInfoError::CommandFailed(code),
            OutcomeView::Invalid => SystemInfoError::InvalidOutput,
            _ => SystemInfoError::ProcessWaitFailed,
        }
    }

    /// What follows the journal of the service at `i`.
    pub open spec fn after_service(self, i: int) -> InfoAction {
        if i + 1 < self.services.len() {
            InfoAction::Journalctl((i + 1) as usize)
        } else {
            InfoAction::Hostname
        }
    }

    /// The collection after it was told `outcome`. The reports are put in
    /// place in the order disk space, inodes, uptime, memory, processes, logs,
    /// and then the journals of the services.
    pub open spec fn next(self, outcome: OutcomeView) -> SystemInfoGetterView {
        match outcome {
            OutcomeView::Text(text) => {
                let report = CommandOutputView { name: command_name(self.command()->0), output: text };
                match self.awaiting {
                    InfoAction::Df => SystemInfoGetterView {
                        awaiting: InfoAction::DfInodes,
                        commands: self.commands.push(report),
                        ..self
                    },
                    InfoAction::DfInodes => SystemInfoGetterView {
                        awaiting: InfoAction::Uptime,
                        commands: self.commands.push(report),
                        ..self
                    },
                    InfoAction::Uptime => SystemInfoGetterView {
                        awaiting: InfoAction::Free,
                        commands: self.commands.push(report),
                        ..self
                    },
                    InfoAction::Free => SystemInfoGetterView {
                        awaiting: InfoAction::PrintLogs,
                        commands: self.commands.push(report),
                        ..self
                    },
                    InfoAction::PrintLogs => SystemInfoGetterView {
                        awaiting: InfoAction::Whoami,
                        print_logs: Some(report),
                        ..self
                    },
                    InfoAction::Whoami => SystemInfoGetterView {
                        awaiting: InfoAction::Top,
                        username: trimmed(text),
                        ..self
                    },
                    InfoAction::Top => SystemInfoGetterView {
                        awaiting: self.after_service(-1),
                        commands: self.commands.push(report).push(self.print_logs->0),
                        print_logs: None,
                        ..self
                    },
                    InfoAction::Journalctl(i) => SystemInfoGetterView {
                        awaiting: self.after_service(i as int),
                        commands: self.commands.push(report),
                        ..self
                    },
                    InfoAction::Hostname => SystemInfoGetterView {
                        awaiting: InfoAction::Finish(Ok(())),
                        hostname: trimmed(text),
                        ..self
                    },
                    InfoAction::Finish(_) => self,
                }
            },
            _ => SystemInfoGetterView {
                awaiting: InfoAction::Finish(Err(Self::command_error(outcome))),
                ..self
            },
        }
    }

    /// The collection as it starts.
    pub open spec fn started(print_logs_script: Seq<char>, services: Seq<Seq<char>>) -> SystemInfoGetterView {
        SystemInfoGetterView {
            awaiting: InfoAction::Df,
            print_logs_script,
            services,
            username: Seq::empty(),
            hostname: Seq::empty(),
            print_logs: None,
            commands: Seq::empty(),
        }
    }

    /// The diagnostics that were collected.
    pub open spec fn system_info(self) -> SystemInfoView {
        SystemInfoView { name: self.hostname, info: self.commands }
    }
}

/// Collects the diagnostics of this node, command by command.
pub struct SystemInfoGetter {
    awaiting: InfoAction,
    print_logs_script: String,
    services: Vec<String>,
    username: String,
    hostname: String,
    print_logs: Option<CommandOutput>,
    commands: Vec<CommandOutput>,
}

impl View for SystemInfoGetter {
    type V = SystemInfoGetterView;

    closed spec fn view(&self) -> SystemInfoGetterView {
        SystemInfoGetterView {
            awaiting: self.awaiting,
            print_logs_script: self.print_logs_script@,
            services: texts(self.services@),
            username: self.username@,
            hostname: self.hostname@,
            print_logs: match self.print_logs {
                Some(p) => Some(p@),
                None => None,
            },
            commands: command_output_views(self.commands@),
        }
    }
}

fn words1(a: &str) -> (r: Vec<String>)
    ensures
        texts(r@) == seq![a@],
{
    let mut args: Vec<String> = Vec::new();
    assert(texts(args@) =~= Seq::<Seq<char>>::empty());
    push_arg(&mut args, a);
    assert(texts(args@) =~= seq![a@]);
    args
}

fn no_words() -> (r: Vec<String>)
    ensures
        texts(r@) == Seq::<Seq<char>>::empty(),
{
    let args: Vec<String> = Vec::new();
    assert(texts(args@) =~= Seq::<Seq<char>>::empty());
    args
}

impl SystemInfoGetter {
    /// Starts the collection. `print_logs_script` is the script that prints
    /// the logs, `log_services` are the services whose journal is read.
    pub fn system_info(print_logs_script: &str, log_services: Vec<String>) -> (r:
        SystemInfoGetter)
        ensures
            r@ == SystemInfoGetterView::started(print_logs_script@, texts(log_services@)),
            r@.wf(),
    {
        let commands: Vec<CommandOutput> = Vec::new();
        assert(command_output_views(commands@) =~= Seq::<CommandOutputView>::empty());
        SystemInfoGetter {
            awaiting: InfoAction::Df,
            print_logs_script: String::from_str(print_logs_script),
            services: log_services,
            username: String::new(),
            hostname: String::new(),
            print_logs: None,
            commands,
        }
    }

    /// The action whose outcome the collection waits for.
    pub fn awaiting(&self) -> (r: InfoAction)
        ensures
            r == self@.awaiting,
    {
        self.awaiting
    }

    /// The command line of the action that the collection waits for.
    pub fn command(&self) -> (r: Option<Command>)
        requires
            self@.wf(),
        ensures
            r is Some == self@.command() is Some,
            r is Some ==> r->0@ == self@.command()->0,
    {
        match self.awaiting {
            InfoAction::Df => Some(Command::plain("df", words1("-h"))),
            InfoAction::DfInodes => Some(Command::plain("df", words1("-hi"))),
            InfoAction::Uptime => Some(Command::plain("uptime", no_words())),
            InfoAction::Free => Some(Command::plain("free", words1("-h"))),
            InfoAction::PrintLogs => Some(Command::sudo(self.print_logs_script.as_str())),
            InfoAction::Whoami => Some(Command::plain("whoami", no_words())),
            InfoAction::Top => {
                let mut args: Vec<String> = Vec::new();
                assert(texts(args@) =~= Seq::<Seq<char>>::empty());
                push_arg(&mut args, "-bn");
                push_arg(&mut args, "1");
                push_arg(&mut args, "-u");
                push_arg(&mut args, self.username.as_str());
                assert(texts(args@) =~= seq!["-bn"@, "1"@, "-u"@, self.username@]);
                Some(Command::plain("top", args))
            },
            InfoAction::Journalctl(i) => {
                if i < self.services.len() {
                    let mut args: Vec<String> = Vec::new();
                    assert(texts(args@) =~= Seq::<Seq<char>>::empty());
                    push_arg(&mut args, "--no-pager");
                    push_arg(&mut args, "-n");
                    push_arg(&mut args, "10");
                    push_arg(&mut args, "-u");
                    push_arg(&mut args, self.services[i].as_str());
                    assert(texts(args@) =~= seq![
                        "--no-pager"@,
                        "-n"@,
                        "10"@,
                        "-u"@,
                        texts(self.services@)[i as int],
                    ]);
                    Some(Command::plain("journalctl", args))
                } else {
                    None
                }
            },
            InfoAction::Hostname => Some(Command::plain("hostname", no_words())),
            InfoAction::Finish(_) => None,
        }
    }

    /// Whether `outcome` is an answer to the action that the collection waits for.
    pub fn accepts(&self, outcome: &Outcome) -> (r: bool)
        ensures
            r == self@.answers(outcome@),
    {
        match self.awaiting {
            InfoAction::Finish(_) => false,
            _ => outcome.of_captured_process(),
        }
    }

    fn after_service(&self, next: usize) -> (r: InfoAction)
        ensures
            r == self@.after_service(next as int - 1),
    {
        if next < self.services.len() {
            InfoAction::Journalctl(next)
        } else {
            InfoAction::Hostname
        }
    }

    fn put(&mut self, report: CommandOutput)
        ensures
            final(self)@ == (SystemInfoGetterView {
                commands: old(self)@.commands.push(report@),
                ..old(self)@
            }),
    {
        self.commands.push(report);
        assert(command_output_views(self.commands@) =~= command_output_views(
            old(self).commands@,
        ).push(report@));
    }

    /// Takes what the command printed, or how it failed, and answers with
    /// the next command.
    pub fn step(&mut self, outcome: Outcome) -> (action: InfoAction)
        requires
            old(self)@.wf(),
            old(self)@.answers(outcome@),
        ensures
            final(self)@ == old(self)@.next(outcome@),
            action == final(self)@.awaiting,
            final(self)@.wf(),
    {
        let command = self.command();
        let action = match (outcome, command) {
            (Outcome::Text(text), Some(command)) => {
                match self.awaiting {
                    InfoAction::Df => {
                        self.put(command_output(&command, text));
                        InfoAction::DfInodes
                    },
                    InfoAction::DfInodes => {
                        self.put(command_output(&command, text));
                        InfoAction::Uptime
                    },
                    InfoAction::Uptime => {
                        self.put(command_output(&command, text));
                        InfoAction::Free
                    },
                    InfoAction::Free => {
                        self.put(command_output(&command, text));
                        InfoAction::PrintLogs
                    },
                    InfoAction::PrintLogs => {
                        self.print_logs = Some(command_output(&command, text));
                        InfoAction::Whoami
                    },
                    InfoAction::Whoami => {
                        self.username = trim_text(text.as_str());
                        InfoAction::Top
                    },
                    InfoAction::Top => {
                        self.put(command_output(&command, text));
                        let logs = self.print_logs.take();
                        match logs {
                            Some(report) => {
                                self.put(report);
                            },
                            None => {},
                        }
                        self.after_service(0)
                    },
                    InfoAction::Journalctl(i) => {
                        assert(texts(self.services@).len() == self.services@.len());
                        let count = self.services.len();
                        assert(i < count);
                        self.put(command_output(&command, text));
                        self.after_service(i + 1)
                    },
                    InfoAction::Hostname => {
                        self.hostname = trim_text(text.as_str());
                        InfoAction::Finish(Ok(()))
                    },
                    InfoAction::Finish(r) => InfoAction::Finish(r),
                }
            },
            (outcome, _) => InfoAction::Finish(
                Err(
                    match outcome {
                        Outcome::Exited(code) => SystemInfoError::CommandFailed(code),
                        Outcome::Invalid => SystemInfoError::InvalidOutput,
                        _ => SystemInfoError::ProcessWaitFailed,
                    },
                ),
            ),
        };
        self.awaiting = action;
        action
    }

    /// The diagnostics that were collected, once the collection has ended
    /// well.
    pub fn into_system_info(self) -> (r: SystemInfo)
        ensures
            r@ == self@.system_info(),
    {
        SystemInfo { name: self.hostname, info: self.commands }
    }
}

/// The name under which the diagnostics of a remote manager are reported.
pub open spec fn remote_name(service: Seq<char>, name: Seq<char>) -> Seq<char> {
    "Remote manager "@ + service + ", remote name: "@ + name
}

/// The diagnostics of the remote manager `service`, under the name that
/// tells them from this node's own.
pub fn remote_system_info(service: &str, info: SystemInfo) -> (r: SystemInfo)
    ensures
        r@ == (SystemInfoView { name: remote_name(service@, info.name@), info: info@.info }),
{
    let mut name = String::from_str("Remote manager ");
    name.append(service);
    name.append(", remote name: ");
    name.append(info.name.as_str());
    SystemInfo { name, info: info.info }
}

/// What a remote manager answered when asked for its diagnostics.
#[derive(Debug)]
pub struct RemoteAnswer {
    /// The name of the remote manager in the configuration.
    pub service: String,
    /// Its diagnostics, unless the request failed.
    pub info: Option<SystemInfo>,
}

/// The reports of the first `n` answers: those of the requests that did not
/// fail, in their order and under their remote names.
pub open spec fn spec_remote_reports(answers: Seq<RemoteAnswer>, n: int) -> Seq<SystemInfoView>
    decreases n,
{
    if n <= 0 {
        Seq::empty()
    } else {
        let before = spec_remote_reports(answers, n - 1);
        match answers[n - 1].info {
            Some(info) => before.push(
                SystemInfoView {
                    name: remote_name(answers[n - 1].service@, info.name@),
                    info: info@.info,
                },
            ),
            None => before,
        }
    }
}

/// The diagnostics of this node and of the remote managers: this node's own
/// first, then those of each remote manager that answered. A remote manager
/// that could not be reached is left out.
pub fn system_info_all(own: SystemInfo, answers: Vec<RemoteAnswer>) -> (r: SystemInfoList)
    ensures
        system_info_views(r.info@) == seq![own@] + spec_remote_reports(
            answers@,
            answers@.len() as int,
        ),
{
    let mut system_infos: Vec<SystemInfo> = Vec::new();
    system_infos.push(own);
    assert(system_info_views(system_infos@) =~= seq![own@] + spec_remote_reports(answers@, 0));
    let mut answers = answers;
    let ghost all = answers@;
    let ghost mut done: int = 0;
    assert(answers@ =~= all.skip(0));
    while answers.len() > 0
        invariant
            0 <= done <= all.len(),
            answers@ == all.skip(done),
            system_info_views(system_infos@) == seq![own@] + spec_remote_reports(all, done),
        decreases answers.len(),
    {
        let ghost views = system_info_views(system_infos@);
        let answer = answers.remove(0);
        assert(answer == all[done]);
        match answer.info {
            Some(info) => {
                let report = remote_system_info(answer.service.as_str(), info);
                system_infos.push(report);
                assert(system_info_views(system_infos@) =~= views.push(report@));
            },
            None => {},
        }
        proof {
            done = done + 1;
            assert(answers@ =~= all.skip(done));
        }
        assert(system_info_views(system_infos@) =~= seq![own@] + spec_remote_reports(all, done));
    }
    SystemInfoList { info: system_infos }
}

} // verus!
