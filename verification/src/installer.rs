//! What has to be on the host before the engine can start: the proxy, and the
//! transport plugin where bridges are used.
//!
//! Nothing is looked up or installed here. The installer says which query
//! tells whether a program is there, reads the host's reply, and gives the
//! plan that installs the proxy on hosts that have a package manager.

use vstd::prelude::*;
use vstd::string::*;
use crate::error::{ErrorKind, NipeError, NipeErrorView};
use crate::host::{Command, CommandView, Effect, EffectView, Meaning, Reply, ReplyView};
use crate::plan::{steps_view, Step, StepView, Tolerance};
use crate::platform::{strings, Platform};

verus! {

/// The installer. It holds nothing.
#[derive(Debug)]
pub struct Installer;

/// The program that tells where a command is found.
pub open spec fn finder(platform: Platform) -> Seq<char> {
    match platform {
        Platform::Windows => "where"@,
        _ => "which"@,
    }
}

/// The query that tells whether `command` is on the search path.
pub open spec fn availability_query(platform: Platform, command: Seq<char>) -> CommandView {
    CommandView { program: finder(platform), args: seq![command] }
}

/// Whether the reply to an availability query says that the command is there:
/// the query ran and succeeded.
pub open spec fn available(reply: ReplyView) -> bool {
    reply matches ReplyView::Exited { success, stdout, stderr } && success
}

/// What the user is told where the proxy cannot be installed without them.
pub open spec fn manual_instructions(platform: Platform) -> Seq<char> {
    match platform {
        Platform::Windows => "Automatic Tor installation is not supported on Windows.\n\nPlease download and install Tor from the official website:\nhttps://www.torproject.org/download/\n\nAfter installing, ensure `tor.exe` is in your PATH or located at C:\\Program Files\\Tor\\tor.exe"@,
        Platform::MacOS => "Homebrew not found. Please install Homebrew first:\n/bin/bash -c \"$(curl -fsSL https://raw.githubusercontent.com/Homebrew/install/HEAD/install.sh)\" "@,
        Platform::Linux => "Failed to auto-install Tor. Please install manually:\nDebian/Ubuntu: sudo apt-get install tor\nFedora: sudo dnf install tor\nArch: sudo pacman -S tor "@,
    }
}

/// One step of an installation: its failure is an error that begins with
/// `context`.
pub open spec fn install_step(program: Seq<char>, args: Seq<Seq<char>>, context: Seq<char>) -> StepView {
    StepView {
        effect: EffectView::Run { command: CommandView { program, args }, meaning: Meaning::Neutral },
        tolerance: Tolerance::Strict,
        kind: ErrorKind::Other,
        context,
    }
}

/// The plan that installs the proxy, where the host has a package manager
/// that the installer knows.
pub open spec fn installation(platform: Platform) -> Result<Seq<StepView>, NipeErrorView> {
    match platform {
        Platform::Linux => Ok(
            seq![
                install_step(
                    "apt-get"@,
                    seq!["install"@, "-y"@, "tor"@],
                    manual_instructions(Platform::Linux),
                ),
            ],
        ),
        Platform::MacOS => Ok(
            seq![
                install_step("which"@, seq!["brew"@], manual_instructions(Platform::MacOS)),
                install_step(
                    "brew"@,
                    seq!["install"@, "tor"@],
                    "Failed to install Tor via Homebrew "@,
                ),
            ],
        ),
        Platform::Windows => Err(NipeErrorView::Other(manual_instructions(Platform::Windows))),
    }
}

/// The mathematical value of a plan or the error in its place.
pub open spec fn plan_view(r: Result<Vec<Step>, NipeError>) -> Result<Seq<StepView>, NipeErrorView> {
    match r {
        Ok(plan) => Ok(steps_view(plan@)),
        Err(e) => Err(e@),
    }
}

impl Installer {
    /// The query that tells whether `command` is on the search path.
    pub fn availability_query(platform: Platform, command: &str) -> (c: Command)
        ensures
            c@ == availability_query(platform, command@),
    {
        let program = match platform {
            Platform::Windows => String::from_str("where"),
            _ => String::from_str("which"),
        };
        let c = Command { program, args: strings(&[command]) };
        assert(c@.args =~= seq![command@]);
        c
    }

    /// Reads the reply to an availability query.
    pub fn is_command_available(reply: &Reply) -> (b: bool)
        ensures
            b == available(reply@),
    {
        match reply {
            Reply::Exited { success, stdout, stderr } => *success,
            _ => false,
        }
    }

    /// Reads the reply to the availability query for the proxy.
    pub fn is_tor_installed(reply: &Reply) -> (b: bool)
        ensures
            b == available(reply@),
    {
        Self::is_command_available(reply)
    }

    /// Reads the reply to the availability query for the transport plugin.
    pub fn check_obfs4proxy(reply: &Reply) -> (r: Result<(), NipeError>)
        ensures
            r is Ok <==> available(reply@),
            r is Err ==> r->Err_0@ == NipeErrorView::Other("obfs4proxy not found"@),
    {
        if Self::is_command_available(reply) {
            Ok(())
        } else {
            Err(NipeError::Other(String::from_str("obfs4proxy not found")))
        }
    }

    fn install_step(program: &str, args: &[&str], context: &str) -> (s: Step)
        ensures
            s@ == install_step(program@, crate::platform::slice_texts(args@), context@),
    {
        let command = Command { program: String::from_str(program), args: strings(args) };
        Step::strict(Effect::Run { command, meaning: Meaning::Neutral }, ErrorKind::Other, context)
    }

    /// The plan that installs the proxy on this kind of host, or the error
    /// that tells the user to install it.
    pub fn install_tor(platform: Platform) -> (r: Result<Vec<Step>, NipeError>)
        ensures
            plan_view(r) == installation(platform),
    {
        match platform {
            Platform::Linux => {
                let step = Self::install_step(
                    "apt-get",
                    &["install", "-y", "tor"],
                    "Failed to auto-install Tor. Please install manually:\nDebian/Ubuntu: sudo apt-get install tor\nFedora: sudo dnf install tor\nArch: sudo pacman -S tor ",
                );
                assert(step@.effect->Run_command.args =~= seq!["install"@, "-y"@, "tor"@]);
                let mut plan: Vec<Step> = Vec::new();
                plan.push(step);
                assert(steps_view(plan@) =~= installation(platform)->Ok_0);
                Ok(plan)
            },
            Platform::MacOS => {
                let find = Self::install_step(
                    "which",
                    &["brew"],
                    "Homebrew not found. Please install Homebrew first:\n/bin/bash -c \"$(curl -fsSL https://raw.githubusercontent.com/Homebrew/install/HEAD/install.sh)\" ",
                );
                assert(find@.effect->Run_command.args =~= seq!["brew"@]);
                let install = Self::install_step(
                    "brew",
                    &["install", "tor"],
                    "Failed to install Tor via Homebrew ",
                );
                assert(install@.effect->Run_command.args =~= seq!["install"@, "tor"@]);
                let mut plan: Vec<Step> = Vec::new();
                plan.push(find);
                plan.push(install);
                assert(steps_view(plan@) =~= installation(platform)->Ok_0);
                Ok(plan)
            },
            Platform::Windows => Err(
                NipeError::Other(
                    String::from_str(
                        "Automatic Tor installation is not supported on Windows.\n\nPlease download and install Tor from the official website:\nhttps://www.torproject.org/download/\n\nAfter installing, ensure `tor.exe` is in your PATH or located at C:\\Program Files\\Tor\\tor.exe",
                    ),
                ),
            ),
        }
    }

    /// What is left to do for the proxy to be there, given the reply to its
    /// availability query: nothing if it is installed, else its installation.
    pub fn check_and_install_tor(platform: Platform, reply: &Reply) -> (r: Result<
        Vec<Step>,
        NipeError,
    >)
        ensures
            available(reply@) ==> plan_view(r) == Ok::<Seq<StepView>, NipeErrorView>(Seq::empty()),
            !available(reply@) ==> plan_view(r) == installation(platform),
    {
        if Self::is_tor_installed(reply) {
            let plan: Vec<Step> = Vec::new();
            assert(steps_view(plan@) =~= Seq::<StepView>::empty());
            Ok(plan)
        } else {
            Self::install_tor(platform)
        }
    }
}

} // verus!
