//! The boundary between the engine and the machine it runs on.
//!
//! The engine never touches the machine. It hands out an [`Effect`], the host
//! carries it out and answers with a [`Reply`]. Both are plain values.

use vstd::prelude::*;
use vstd::string::*;
use crate::text::{texts, clone_strings};

verus! {

/// A program to run to completion, with its arguments.
#[derive(Clone, Debug, PartialEq, Eq)]
pub struct Command {
    pub program: String,
    pub args: Vec<String>,
}

/// The mathematical value of a [`Command`].
pub struct CommandView {
    pub program: Seq<char>,
    pub args: Seq<Seq<char>>,
}

impl View for Command {
    type V = CommandView;

    open spec fn view(&self) -> CommandView {
        CommandView { program: self.program@, args: texts(self.args@) }
    }
}

/// A place in the host's packet filter that the kill switch writes to.
#[derive(Clone, Copy, Debug, PartialEq, Eq, Structural)]
pub enum Scope {
    /// The output chain of the address-translation table.
    NatOutput,
    /// The output chain of the filter table.
    FilterOutput,
    /// The main rule set of the BSD packet filter.
    PacketFilter,
    /// The rules of the rule engine that carry the kill switch's name.
    NamedRule,
}

/// What a command does to the host's packet filter when it succeeds.
#[derive(Clone, Copy, Debug, PartialEq, Eq, Structural)]
pub enum Meaning {
    /// It leaves the packet filter as it is.
    Neutral,
    /// It removes every rule of the scope.
    Clear(Scope),
    /// It adds one rule at the end of the scope.
    Append(Scope),
    /// It replaces the rules of the scope by its own.
    Replace(Scope),
}

/// The account that a file or a process is given to.
#[derive(Clone, Copy, Debug, PartialEq, Eq, Structural)]
pub enum Owner {
    /// The account with this user and group id.
    Account { uid: u32, gid: u32 },
    /// The effective user and group of the calling process.
    Caller,
}

/// One thing the host is asked to do.
#[derive(Clone, Debug, PartialEq, Eq)]
pub enum Effect {
    /// Run the command to completion and capture its output.
    Run { command: Command, meaning: Meaning },
    /// Create the directory and its missing parents.
    CreateDirAll { path: String },
    /// Set the permission bits of the path.
    SetMode { path: String, mode: u32 },
    /// Give the path to the owner.
    Chown { path: String, owner: Owner },
    /// Write the content to the file, replacing what it held.
    WriteFile { path: String, content: String },
    /// Create the file empty, or empty it.
    CreateFile { path: String },
    /// Remove the file.
    RemoveFile { path: String },
    /// Tell whether the path exists.
    PathExists { path: String },
    /// Start the program in the background, both output streams appended to
    /// the log, under the given account if there is one.
    Spawn { program: String, args: Vec<String>, log_path: String, account: Option<Owner> },
    /// Kill the process that was spawned under this id.
    Kill { pid: u32 },
    /// Let go of the process without killing it.
    Detach { pid: u32 },
    /// Get the URL through the proxy and hand back the body.
    Fetch { url: String, proxy: String, timeout_secs: u64 },
    /// Wait.
    Sleep { seconds: u64 },
    /// Open a fresh TCP connection to the address.
    Connect { address: String },
    /// Write the data to the open connection.
    Send { data: String },
}

/// The mathematical value of an [`Effect`].
pub enum EffectView {
    Run { command: CommandView, meaning: Meaning },
    CreateDirAll { path: Seq<char> },
    SetMode { path: Seq<char>, mode: u32 },
    Chown { path: Seq<char>, owner: Owner },
    WriteFile { path: Seq<char>, content: Seq<char> },
    CreateFile { path: Seq<char> },
    RemoveFile { path: Seq<char> },
    PathExists { path: Seq<char> },
    Spawn { program: Seq<char>, args: Seq<Seq<char>>, log_path: Seq<char>, account: Option<Owner> },
    Kill { pid: u32 },
    Detach { pid: u32 },
    Fetch { url: Seq<char>, proxy: Seq<char>, timeout_secs: u64 },
    Sleep { seconds: u64 },
    Connect { address: Seq<char> },
    Send { data: Seq<char> },
}

impl View for Effect {
    type V = EffectView;

    open spec fn view(&self) -> EffectView {
        match self {
            Effect::Run { command, meaning } => EffectView::Run {
                command: command@,
                meaning: *meaning,
            },
            Effect::CreateDirAll { path } => EffectView::CreateDirAll { path: path@ },
            Effect::SetMode { path, mode } => EffectView::SetMode { path: path@, mode: *mode },
            Effect::Chown { path, owner } => EffectView::Chown { path: path@, owner: *owner },
            Effect::WriteFile { path, content } => EffectView::WriteFile {
                path: path@,
                content: content@,
            },
            Effect::CreateFile { path } => EffectView::CreateFile { path: path@ },
            Effect::RemoveFile { path } => EffectView::RemoveFile { path: path@ },
            Effect::PathExists { path } => EffectView::PathExists { path: path@ },
            Effect::Spawn { program, args, log_path, account } => EffectView::Spawn {
                program: program@,
                args: texts(args@),
                log_path: log_path@,
                account: *account,
            },
            Effect::Kill { pid } => EffectView::Kill { pid: *pid },
            Effect::Detach { pid } => EffectView::Detach { pid: *pid },
            Effect::Fetch { url, proxy, timeout_secs } => EffectView::Fetch {
                url: url@,
                proxy: proxy@,
                timeout_secs: *timeout_secs,
            },
            Effect::Sleep { seconds } => EffectView::Sleep { seconds: *seconds },
            Effect::Connect { address } => EffectView::Connect { address: address@ },
            Effect::Send { data } => EffectView::Send { data: data@ },
        }
    }
}

/// What the host answers to an effect.
#[derive(Clone, Debug, PartialEq, Eq)]
pub enum Reply {
    /// It was carried out and there is nothing to report.
    Done,
    /// It could not be carried out; the text is the upstream error.
    Failed(String),
    /// The command ran to completion.
    Exited { success: bool, stdout: String, stderr: String },
    /// Whether the path exists.
    Exists(bool),
    /// The process was spawned under this id.
    Spawned { pid: u32 },
    /// The body that was fetched.
    Body(String),
}

/// The mathematical value of a [`Reply`].
pub enum ReplyView {
    Done,
    Failed(Seq<char>),
    Exited { success: bool, stdout: Seq<char>, stderr: Seq<char> },
    Exists(bool),
    Spawned { pid: u32 },
    Body(Seq<char>),
}

impl View for Reply {
    type V = ReplyView;

    open spec fn view(&self) -> ReplyView {
        match self {
            Reply::Done => ReplyView::Done,
            Reply::Failed(t) => ReplyView::Failed(t@),
            Reply::Exited { success, stdout, stderr } => ReplyView::Exited {
                success: *success,
                stdout: stdout@,
                stderr: stderr@,
            },
            Reply::Exists(b) => ReplyView::Exists(*b),
            Reply::Spawned { pid } => ReplyView::Spawned { pid: *pid },
            Reply::Body(t) => ReplyView::Body(t@),
        }
    }
}

impl Command {
    /// A copy of this command.
    pub fn duplicate(&self) -> (c: Command)
        ensures
            c@ == self@,
    {
        Command { program: self.program.clone(), args: clone_strings(&self.args) }
    }
}

impl Effect {
    /// A copy of this effect.
    pub fn duplicate(&self) -> (e: Effect)
        ensures
            e@ == self@,
    {
        match self {
            Effect::Run { command, meaning } => Effect::Run {
                command: command.duplicate(),
                meaning: *meaning,
            },
            Effect::CreateDirAll { path } => Effect::CreateDirAll { path: path.clone() },
            Effect::SetMode { path, mode } => Effect::SetMode { path: path.clone(), mode: *mode },
            Effect::Chown { path, owner } => Effect::Chown { path: path.clone(), owner: *owner },
            Effect::WriteFile { path, content } => Effect::WriteFile {
                path: path.clone(),
                content: content.clone(),
            },
            Effect::CreateFile { path } => Effect::CreateFile { path: path.clone() },
            Effect::RemoveFile { path } => Effect::RemoveFile { path: path.clone() },
            Effect::PathExists { path } => Effect::PathExists { path: path.clone() },
            Effect::Spawn { program, args, log_path, account } => Effect::Spawn {
                program: program.clone(),
                args: clone_strings(args),
                log_path: log_path.clone(),
                account: *account,
            },
            Effect::Kill { pid } => Effect::Kill { pid: *pid },
            Effect::Detach { pid } => Effect::Detach { pid: *pid },
            Effect::Fetch { url, proxy, timeout_secs } => Effect::Fetch {
                url: url.clone(),
                proxy: proxy.clone(),
                timeout_secs: *timeout_secs,
            },
            Effect::Sleep { seconds } => Effect::Sleep { seconds: *seconds },
            Effect::Connect { address } => Effect::Connect { address: address.clone() },
            Effect::Send { data } => Effect::Send { data: data.clone() },
        }
    }
}

} // verus!
