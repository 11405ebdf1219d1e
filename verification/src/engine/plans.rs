//! The plans of the engine's stages: what is done to the files, to the
//! firewall and to the proxy, step by step.

use vstd::prelude::*;
use vstd::string::*;
use crate::config::FirewallConfig;
use crate::engine::ProcessHandle;
use crate::error::ErrorKind;
use crate::host::{Command, CommandView, Effect, EffectView, Meaning, Owner, ReplyView};
use crate::layout::{layout_view, Layout, LayoutView};
use crate::plan::{steps_view, Step, StepView, Tolerance};
use crate::platform::{extend, strings, Firewall, FirewallProvider, FirewallView};
use crate::privilege::PrivilegeContext;
use crate::text::decimal;

verus! {

/// The permission bits of the data directory: the owner alone.
pub const DATA_MODE: u32 = 0o700;

/// The permission bits of the directory of the log: the owner, and the group
/// to read and to enter.
pub const LOG_DIR_MODE: u32 = 0o750;

/// The permission bits of the log: the owner, and the group to read.
pub const LOG_MODE: u32 = 0o640;

/// The warning that is recorded when the proxy runs with the caller's
/// privileges.
pub open spec fn privilege_warning() -> Seq<char> {
    "No unprivileged user found. Tor will run with the caller's privileges!"@
}

/// A step of file work whose failure is an input/output error with the
/// upstream text.
pub open spec fn io_step(effect: EffectView) -> StepView {
    StepView { effect, tolerance: Tolerance::Strict, kind: ErrorKind::IoError, context: Seq::empty() }
}

/// The step that gives `path` to `owner`.
pub open spec fn chown_step(path: Seq<char>, owner: Owner) -> StepView {
    StepView {
        effect: EffectView::Chown { path, owner },
        tolerance: Tolerance::Strict,
        kind: ErrorKind::Other,
        context: "Failed to chown "@ + path + ": "@,
    }
}

/// The account as an owner.
pub open spec fn owner_of(account: PrivilegeContext) -> Owner {
    Owner::Account { uid: account.uid, gid: account.gid }
}

/// The steps that give `path` to the account, if there is one.
pub open spec fn owned_by(account: Option<PrivilegeContext>, path: Seq<char>) -> Seq<StepView> {
    match account {
        Some(a) => seq![chown_step(path, owner_of(a))],
        None => Seq::empty(),
    }
}

/// The data directory is made, with its parent, locked down to its owner and
/// given to the account.
pub open spec fn prepare_steps(
    base: Seq<char>,
    data_directory: Seq<char>,
    account: Option<PrivilegeContext>,
) -> Seq<StepView> {
    seq![
        io_step(EffectView::CreateDirAll { path: base }),
        io_step(EffectView::CreateDirAll { path: data_directory }),
        io_step(EffectView::SetMode { path: data_directory, mode: DATA_MODE }),
    ] + owned_by(account, data_directory)
}

/// The runtime configuration is written and given to the account; then the
/// directory of the log and the log are made, locked down and given to the
/// account, or to the caller where there is no account.
pub open spec fn configure_steps(
    layout: LayoutView,
    content: Seq<char>,
    account: Option<PrivilegeContext>,
) -> Seq<StepView> {
    seq![io_step(EffectView::WriteFile { path: layout.torrc, content })] + owned_by(
        account,
        layout.torrc,
    ) + seq![
        StepView {
            effect: EffectView::CreateDirAll { path: layout.base },
            tolerance: Tolerance::Strict,
            kind: ErrorKind::TorStartFailed,
            context: "Failed to create log directory: "@,
        },
        io_step(EffectView::SetMode { path: layout.base, mode: LOG_DIR_MODE }),
        chown_step(
            layout.base,
            match account {
                Some(a) => owner_of(a),
                None => Owner::Caller,
            },
        ),
        StepView {
            effect: EffectView::CreateFile { path: layout.log },
            tolerance: Tolerance::Strict,
            kind: ErrorKind::TorStartFailed,
            context: "Failed to create log file "@ + layout.log + ": "@,
        },
        io_step(EffectView::SetMode { path: layout.log, mode: LOG_MODE }),
    ] + owned_by(account, layout.log)
}

/// The pattern that matches the command line of a proxy that was started
/// with the runtime configuration at `torrc`.
pub open spec fn proxy_pattern(torrc: Seq<char>) -> Seq<char> {
    "tor -f "@ + torrc
}

/// The steps that stop the proxy: the process that the engine holds is
/// killed; where it holds none, whatever runs with the runtime configuration
/// of the layout is, as far as that can be done. Without a layout no proxy
/// was ever started for this configuration, and nothing is done.
pub open spec fn stop_process_steps(
    handle: Option<ProcessHandle>,
    layout: Option<LayoutView>,
) -> Seq<StepView> {
    match handle {
        Some(h) => seq![
            StepView {
                effect: EffectView::Kill { pid: h.pid },
                tolerance: Tolerance::Strict,
                kind: ErrorKind::TorStopFailed,
                context: Seq::empty(),
            },
        ],
        None => match layout {
            Some(l) => seq![
                StepView {
                    effect: EffectView::Run {
                        command: CommandView {
                            program: "pkill"@,
                            args: seq!["-f"@, proxy_pattern(l.torrc)],
                        },
                        meaning: Meaning::Neutral,
                    },
                    tolerance: Tolerance::Everything,
                    kind: ErrorKind::TorStopFailed,
                    context: Seq::empty(),
                },
            ],
            None => Seq::empty(),
        },
    }
}

/// The teardown: the kill switch off, the proxy setting off, the proxy
/// stopped.
pub open spec fn teardown_steps(
    firewall: FirewallView,
    handle: Option<ProcessHandle>,
    layout: Option<LayoutView>,
) -> Seq<StepView> {
    firewall.kill_switch_off() + firewall.proxy_off() + stop_process_steps(handle, layout)
}

/// The activation: the kill switch on, if the policy asks for it, and the
/// proxy setting on.
pub open spec fn activation_steps(
    firewall: FirewallView,
    policy: FirewallConfig,
    socks_port: u16,
) -> Seq<StepView> {
    (if policy.enable_kill_switch {
        firewall.kill_switch_on()
    } else {
        Seq::empty()
    }) + firewall.proxy_on(socks_port)
}

/// The account whose traffic the kill switch lets out, by its user id: the
/// account that the proxy runs under; where it runs with the caller's
/// privileges, the caller. The text is empty as long as neither is known.
pub open spec fn traffic_owner(account: Option<PrivilegeContext>, caller: Option<u32>) -> Seq<
    char,
> {
    match account {
        Some(a) => decimal(a.uid as nat),
        None => match caller {
            Some(uid) => decimal(uid as nat),
            None => Seq::empty(),
        },
    }
}

/// The query for the user id of the caller.
pub open spec fn caller_query() -> EffectView {
    EffectView::Run {
        command: CommandView { program: "id"@, args: seq!["-u"@] },
        meaning: Meaning::Neutral,
    }
}

/// What the start fails with where the caller's user id cannot be had.
pub open spec fn caller_unknown(reply: ReplyView) -> crate::error::NipeErrorView {
    crate::error::NipeErrorView::FirewallError(
        "Cannot find out the caller's user id: "@ + reply_text(reply),
    )
}

/// The request to spawn the proxy.
pub open spec fn spawn_request(
    binary: Seq<char>,
    layout: LayoutView,
    account: Option<PrivilegeContext>,
) -> EffectView {
    EffectView::Spawn {
        program: binary,
        args: seq!["-f"@, layout.torrc],
        log_path: layout.log,
        account: match account {
            Some(a) => Some(owner_of(a)),
            None => None,
        },
    }
}

/// The query for the default route.
pub open spec fn route_query() -> EffectView {
    EffectView::Run {
        command: CommandView { program: "route"@, args: seq!["get"@, "default"@] },
        meaning: Meaning::Neutral,
    }
}

/// The query for the list of hardware ports.
pub open spec fn service_query() -> EffectView {
    EffectView::Run {
        command: CommandView { program: "networksetup"@, args: seq!["-listallhardwareports"@] },
        meaning: Meaning::Neutral,
    }
}

/// The text that a reply carries where it tells of a failure.
pub open spec fn reply_text(reply: ReplyView) -> Seq<char> {
    match reply {
        ReplyView::Failed(text) => text,
        ReplyView::Exited { success, stdout, stderr } => stderr,
        _ => Seq::empty(),
    }
}

fn build_io_step(effect: Effect) -> (s: Step)
    ensures
        s@ == io_step(effect@),
{
    Step::plain(effect, Tolerance::Strict, ErrorKind::IoError)
}

fn build_chown_step(path: &str, owner: Owner) -> (s: Step)
    ensures
        s@ == chown_step(path@, owner),
{
    let mut context = String::from_str("Failed to chown ");
    context.append(path);
    context.append(": ");
    Step {
        effect: Effect::Chown { path: String::from_str(path), owner },
        tolerance: Tolerance::Strict,
        kind: ErrorKind::Other,
        context,
    }
}

pub fn account_owner(account: PrivilegeContext) -> (o: Owner)
    ensures
        o == owner_of(account),
{
    Owner::Account { uid: account.uid, gid: account.gid }
}

fn give_to(plan: &mut Vec<Step>, account: Option<PrivilegeContext>, path: &str)
    ensures
        steps_view(final(plan)@) == steps_view(old(plan)@) + owned_by(account, path@),
{
    let ghost before = steps_view(plan@);
    match account {
        Some(a) => {
            plan.push(build_chown_step(path, account_owner(a)));
            assert(steps_view(plan@) =~= before + owned_by(account, path@));
        },
        None => {
            assert(steps_view(plan@) =~= before + owned_by(account, path@));
        },
    }
}

/// Builds the plan that prepares the data directory.
pub fn prepare_plan(base: &str, data_directory: &str, account: Option<PrivilegeContext>) -> (plan:
    Vec<Step>)
    ensures
        steps_view(plan@) == prepare_steps(base@, data_directory@, account),
{
    let mut plan: Vec<Step> = Vec::new();
    plan.push(build_io_step(Effect::CreateDirAll { path: String::from_str(base) }));
    plan.push(build_io_step(Effect::CreateDirAll { path: String::from_str(data_directory) }));
    plan.push(build_io_step(Effect::SetMode { path: String::from_str(data_directory), mode: DATA_MODE }));
    assert(steps_view(plan@) =~= seq![
        io_step(EffectView::CreateDirAll { path: base@ }),
        io_step(EffectView::CreateDirAll { path: data_directory@ }),
        io_step(EffectView::SetMode { path: data_directory@, mode: DATA_MODE }),
    ]);
    give_to(&mut plan, account, data_directory);
    plan
}

/// Builds the plan that writes the runtime configuration and the log.
pub fn configure_plan(layout: &Layout, content: String, account: Option<PrivilegeContext>) -> (plan:
    Vec<Step>)
    ensures
        steps_view(plan@) == configure_steps(layout@, content@, account),
{
    let mut plan: Vec<Step> = Vec::new();
    plan.push(build_io_step(Effect::WriteFile { path: layout.torrc.clone(), content }));
    assert(steps_view(plan@) =~= seq![
        io_step(EffectView::WriteFile { path: layout@.torrc, content: content@ }),
    ]);
    give_to(&mut plan, account, layout.torrc.as_str());
    let ghost head = steps_view(plan@);
    let mut log_context = String::from_str("Failed to create log file ");
    log_context.append(layout.log.as_str());
    log_context.append(": ");
    let mut middle: Vec<Step> = Vec::new();
    middle.push(
        Step::strict(
            Effect::CreateDirAll { path: layout.base.clone() },
            ErrorKind::TorStartFailed,
            "Failed to create log directory: ",
        ),
    );
    middle.push(build_io_step(Effect::SetMode { path: layout.base.clone(), mode: LOG_DIR_MODE }));
    middle.push(
        build_chown_step(
            layout.base.as_str(),
            match account {
                Some(a) => account_owner(a),
                None => Owner::Caller,
            },
        ),
    );
    middle.push(
        Step {
            effect: Effect::CreateFile { path: layout.log.clone() },
            tolerance: Tolerance::Strict,
            kind: ErrorKind::TorStartFailed,
            context: log_context,
        },
    );
    middle.push(build_io_step(Effect::SetMode { path: layout.log.clone(), mode: LOG_MODE }));
    assert(steps_view(middle@) =~= seq![
        StepView {
            effect: EffectView::CreateDirAll { path: layout@.base },
            tolerance: Tolerance::Strict,
            kind: ErrorKind::TorStartFailed,
            context: "Failed to create log directory: "@,
        },
        io_step(EffectView::SetMode { path: layout@.base, mode: LOG_DIR_MODE }),
        chown_step(
            layout@.base,
            match account {
                Some(a) => owner_of(a),
                None => Owner::Caller,
            },
        ),
        StepView {
            effect: EffectView::CreateFile { path: layout@.log },
            tolerance: Tolerance::Strict,
            kind: ErrorKind::TorStartFailed,
            context: "Failed to create log file "@ + layout@.log + ": "@,
        },
        io_step(EffectView::SetMode { path: layout@.log, mode: LOG_MODE }),
    ]);
    extend(&mut plan, middle);
    give_to(&mut plan, account, layout.log.as_str());
    plan
}

fn stop_process_plan(handle: Option<ProcessHandle>, layout: &Option<Layout>) -> (plan: Vec<Step>)
    ensures
        steps_view(plan@) == stop_process_steps(handle, layout_view(*layout)),
{
    let mut plan: Vec<Step> = Vec::new();
    match handle {
        Some(h) => {
            plan.push(
                Step::plain(
                    Effect::Kill { pid: h.pid },
                    Tolerance::Strict,
                    ErrorKind::TorStopFailed,
                ),
            );
        },
        None => {
            match layout {
                Some(l) => {
                    let pattern = String::from_str("tor -f ").concat(l.torrc.as_str());
                    let command = Command {
                        program: String::from_str("pkill"),
                        args: strings(&["-f", pattern.as_str()]),
                    };
                    assert(command@.args =~= seq!["-f"@, proxy_pattern(l@.torrc)]);
                    plan.push(
                        Step::plain(
                            Effect::Run { command, meaning: Meaning::Neutral },
                            Tolerance::Everything,
                            ErrorKind::TorStopFailed,
                        ),
                    );
                },
                None => {},
            }
        },
    }
    assert(steps_view(plan@) =~= stop_process_steps(handle, layout_view(*layout)));
    plan
}

/// Builds the plan of the teardown.
pub fn teardown_plan(
    firewall: &Firewall,
    handle: Option<ProcessHandle>,
    layout: &Option<Layout>,
) -> (plan: Vec<Step>)
    ensures
        steps_view(plan@) == teardown_steps(firewall@, handle, layout_view(*layout)),
{
    let mut plan = firewall.disable_kill_switch();
    extend(&mut plan, firewall.disable_socks_proxy());
    extend(&mut plan, stop_process_plan(handle, layout));
    plan
}

/// Builds the plan of the activation.
pub fn activation_plan(firewall: &Firewall, policy: FirewallConfig, socks_port: u16) -> (plan:
    Vec<Step>)
    ensures
        steps_view(plan@) == activation_steps(firewall@, policy, socks_port),
{
    let mut plan: Vec<Step> = Vec::new();
    assert(steps_view(plan@) =~= Seq::<StepView>::empty());
    if policy.enable_kill_switch {
        extend(&mut plan, firewall.enable_kill_switch());
        assert(steps_view(plan@) =~= firewall@.kill_switch_on());
    }
    extend(&mut plan, firewall.enable_socks_proxy(socks_port));
    plan
}

} // verus!
