//! The operations that the managers ask their caller to carry out, in full:
//! which file, which command line, which request.

use crate::model::{BuildInfo, BuildInfoView, SoftwareOptions};
use crate::text::{chars_of, concat, concat3};
use vstd::prelude::*;

verus! {

/// The texts of a list of strings.
pub open spec fn texts(list: Seq<String>) -> Seq<Seq<char>> {
    list.map_values(|s: String| s@)
}

/// Appends `arg` to `args`.
pub fn push_arg(args: &mut Vec<String>, arg: &str)
    ensures
        texts(final(args)@) == texts(old(args)@).push(arg@),
{
    args.push(String::from_str(arg));
    assert(texts(args@) =~= texts(old(args)@).push(arg@));
}

/// `dir` extended by `name`: `name` itself if it starts at the root, else
/// `name` behind `dir` and one separator, which is left out where `dir` is
/// empty or ends in one.
pub open spec fn spec_join_path(dir: Seq<char>, name: Seq<char>) -> Seq<char> {
    if name.len() > 0 && name[0] == '/' {
        name
    } else if dir.len() == 0 || dir.last() == '/' {
        dir + name
    } else {
        dir + seq!['/'] + name
    }
}

/// The path of `name` below `dir`.
pub fn join_path(dir: &str, name: &str) -> (r: String)
    ensures
        r@ == spec_join_path(dir@, name@),
{
    let d = chars_of(dir);
    let n = chars_of(name);
    if n.len() > 0 && n[0] == '/' {
        String::from_str(name)
    } else if d.len() == 0 || d[d.len() - 1] == '/' {
        concat(dir, name)
    } else {
        proof {
            reveal_strlit("/");
            assert("/"@ =~= seq!['/']);
        }
        concat3(dir, "/", name)
    }
}

/// What `Path::file_name` returns for the path: its last component, unless
/// the path ends in the root or in `..`.
pub uninterp spec fn file_name_of(path: Seq<char>) -> Option<Seq<char>>;

/// What `Path::with_file_name` returns: the path with its last component
/// replaced by `name`.
pub uninterp spec fn with_file_name(path: Seq<char>, name: Seq<char>) -> Seq<char>;

/// `Path::file_name`: the result is named by [`file_name_of`].
#[verifier::external_body]
pub(crate) fn path_file_name(path: &str) -> (r: Option<String>)
    ensures
        r is Some == file_name_of(path@) is Some,
        r is Some ==> r->0@ == file_name_of(path@)->0,
{
    match std::path::Path::new(path).file_name() {
        Some(name) => Some(name.to_string_lossy().into_owned()),
        None => None,
    }
}

/// `Path::with_file_name`: the result is named by [`with_file_name`].
#[verifier::external_body]
pub(crate) fn path_with_file_name(path: &str, name: &str) -> (r: String)
    ensures
        r@ == with_file_name(path@, name@),
{
    std::path::Path::new(path).with_file_name(name).to_string_lossy().into_owned()
}

/// The neighbour of `path` whose name is that of `path` with `suffix` behind
/// it; none where `path` has no name.
pub open spec fn spec_sibling(path: Seq<char>, suffix: Seq<char>) -> Option<Seq<char>> {
    match file_name_of(path) {
        Some(name) => Some(with_file_name(path, name + suffix)),
        None => None,
    }
}

/// The path next to `path` that carries `suffix` behind the name of `path`.
pub fn sibling(path: &str, suffix: &str) -> (r: Option<String>)
    ensures
        r is Some == spec_sibling(path@, suffix@) is Some,
        r is Some ==> r->0@ == spec_sibling(path@, suffix@)->0,
{
    match path_file_name(path) {
        Some(name) => {
            let renamed = concat(name.as_str(), suffix);
            Some(path_with_file_name(path, renamed.as_str()))
        },
        None => None,
    }
}

/// A command line.
#[derive(Debug)]
pub struct Command {
    /// The program to start.
    pub program: String,
    /// Its arguments, in order.
    pub args: Vec<String>,
    /// The directory to start it in; the supervisor's own where there is none.
    pub current_dir: Option<String>,
}

/// The texts of a [`Command`].
pub struct CommandView {
    pub program: Seq<char>,
    pub args: Seq<Seq<char>>,
    pub current_dir: Option<Seq<char>>,
}

impl View for Command {
    type V = CommandView;

    open spec fn view(&self) -> CommandView {
        CommandView {
            program: self.program@,
            args: texts(self.args@),
            current_dir: match self.current_dir {
                Some(d) => Some(d@),
                None => None,
            },
        }
    }
}

impl CommandView {
    /// The command `program args..`, started in the supervisor's directory.
    pub open spec fn plain(program: Seq<char>, args: Seq<Seq<char>>) -> CommandView {
        CommandView { program, args, current_dir: None }
    }

    /// The command `program args..`, started in `dir`.
    pub open spec fn within(dir: Seq<char>, program: Seq<char>, args: Seq<Seq<char>>) -> CommandView {
        CommandView { program, args, current_dir: Some(dir) }
    }
}

impl Command {
    /// The command `program args..`, started in the supervisor's directory.
    pub fn plain(program: &str, args: Vec<String>) -> (r: Command)
        ensures
            r@ == CommandView::plain(program@, texts(args@)),
    {
        Command { program: String::from_str(program), args, current_dir: None }
    }

    /// The command `program args..`, started in `dir`.
    pub fn within(dir: &str, program: &str, args: Vec<String>) -> (r: Command)
        ensures
            r@ == CommandView::within(dir@, program@, texts(args@)),
    {
        Command {
            program: String::from_str(program),
            args,
            current_dir: Some(String::from_str(dir)),
        }
    }

    /// The script at `script`, run through `sudo`.
    pub fn sudo(script: &str) -> (r: Command)
        ensures
            r@ == CommandView::plain("sudo"@, seq![script@]),
    {
        let mut args: Vec<String> = Vec::new();
        assert(texts(args@) =~= Seq::<Seq<char>>::empty());
        push_arg(&mut args, script);
        assert(texts(args@) =~= seq![script@]);
        Command::plain("sudo", args)
    }
}

/// One thing for the caller to do. Each operation is answered with an
/// [`Outcome`](crate::step::Outcome).
#[derive(Debug)]
pub enum Operation {
    /// Create the directory unless the path exists. A failure is logged and
    /// not reported: the outcome is always a success.
    CreateDirIfMissing { path: String },
    /// Say whether the path exists.
    PathExists { path: String },
    /// Say whether the path is a directory.
    IsDir { path: String },
    /// Read the build record that the file holds.
    ReadBuildInfo { path: String },
    /// Write the build record to the file, as pretty-printed JSON.
    WriteBuildInfo { path: String, info: BuildInfo },
    /// Write what was fetched last to the file.
    WriteFetched { path: String },
    /// Copy a file.
    CopyFile { from: String, to: String },
    /// Rename a file or directory.
    Rename { from: String, to: String },
    /// Remove a file.
    RemoveFile { path: String },
    /// Remove a directory with all that is in it.
    RemoveDirAll { path: String },
    /// Run the command to its end.
    Run { command: Command },
    /// Run the command to its end and hand back what it printed.
    RunCaptured { command: Command },
    /// Run the command with `input` as its input, closed after the last byte.
    RunFed { command: Command, input: String },
    /// Ask the key provider for the key of this node.
    FetchEncryptionKey,
    /// Ask the update provider for the build record of its latest build.
    FetchLatestBuildInfo { software: SoftwareOptions },
    /// Ask the update provider for its latest encrypted binary, and keep it.
    FetchLatestEncryptedBinary { software: SoftwareOptions },
    /// Say what time it is, as text in UTC.
    ReadClock,
    /// Set the latch that makes the next reboot check reboot.
    SetRebootPending,
    /// Tell the reboot manager to reboot now.
    RequestReboot,
}

/// The texts of an [`Operation`].
pub enum OperationView {
    CreateDirIfMissing { path: Seq<char> },
    PathExists { path: Seq<char> },
    IsDir { path: Seq<char> },
    ReadBuildInfo { path: Seq<char> },
    WriteBuildInfo { path: Seq<char>, info: BuildInfoView },
    WriteFetched { path: Seq<char> },
    CopyFile { from: Seq<char>, to: Seq<char> },
    Rename { from: Seq<char>, to: Seq<char> },
    RemoveFile { path: Seq<char> },
    RemoveDirAll { path: Seq<char> },
    Run { command: CommandView },
    RunCaptured { command: CommandView },
    RunFed { command: CommandView, input: Seq<char> },
    FetchEncryptionKey,
    FetchLatestBuildInfo { software: SoftwareOptions },
    FetchLatestEncryptedBinary { software: SoftwareOptions },
    ReadClock,
    SetRebootPending,
    RequestReboot,
}

impl View for Operation {
    type V = OperationView;

    open spec fn view(&self) -> OperationView {
        match self {
            Operation::CreateDirIfMissing { path } => OperationView::CreateDirIfMissing {
                path: path@,
            },
            Operation::PathExists { path } => OperationView::PathExists { path: path@ },
            Operation::IsDir { path } => OperationView::IsDir { path: path@ },
            Operation::ReadBuildInfo { path } => OperationView::ReadBuildInfo { path: path@ },
            Operation::WriteBuildInfo { path, info } => OperationView::WriteBuildInfo {
                path: path@,
                info: info@,
            },
            Operation::WriteFetched { path } => OperationView::WriteFetched { path: path@ },
            Operation::CopyFile { from, to } => OperationView::CopyFile { from: from@, to: to@ },
            Operation::Rename { from, to } => OperationView::Rename { from: from@, to: to@ },
            Operation::RemoveFile { path } => OperationView::RemoveFile { path: path@ },
            Operation::RemoveDirAll { path } => OperationView::RemoveDirAll { path: path@ },
            Operation::Run { command } => OperationView::Run { command: command@ },
            Operation::RunCaptured { command } => OperationView::RunCaptured { command: command@ },
            Operation::RunFed { command, input } => OperationView::RunFed {
                command: command@,
                input: input@,
            },
            Operation::FetchEncryptionKey => OperationView::FetchEncryptionKey,
            Operation::FetchLatestBuildInfo { software } => OperationView::FetchLatestBuildInfo {
                software: *software,
            },
            Operation::FetchLatestEncryptedBinary {
                software,
            } => OperationView::FetchLatestEncryptedBinary { software: *software },
            Operation::ReadClock => OperationView::ReadClock,
            Operation::SetRebootPending => OperationView::SetRebootPending,
            Operation::RequestReboot => OperationView::RequestReboot,
        }
    }
}

} // verus!
