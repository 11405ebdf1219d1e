//! What holds of every run of the engine.
//!
//! The laws are stated of [`EngineView::step`], [`EngineView::begin_start`]
//! and [`EngineView::begin_stop`], the functions that the engine is held to
//! reply by reply, and of the runs that they make.

use vstd::prelude::*;
use crate::bootstrap::Bootstrap;
use crate::config::NipeConfigView;
use crate::engine::model::EngineView;
use crate::engine::plans::{
    activation_steps, caller_unknown, configure_steps, prepare_steps, reply_text,
    stop_process_steps, teardown_steps,
};
use crate::engine::{Operation, ProcessHandle, ProgressView, Stage};
use crate::error::NipeErrorView;
use crate::host::ReplyView;
use crate::layout::LayoutView;
use crate::plan::{lenient, Mode, PlanRunView, Tolerance};
use crate::platform::{FirewallView, Platform};
use crate::rules::{installs, installs_nothing, spawns_nothing};

verus! {

/// The most steps that a teardown has.
pub const TEARDOWN_MAX: usize = 8;

/// The most steps that a plan of file work has.
pub const FILES_MAX: usize = 8;

/// The most steps that an activation has.
pub const ACTIVATION_MAX: usize = 13;

/// The most places that a search goes through.
pub const PLACES_MAX: usize = 5;

/// Whether a stage walks a plan.
pub open spec fn plan_stage(stage: Stage) -> bool {
    stage == Stage::Teardown || stage == Stage::Prepare || stage == Stage::Configure || stage
        == Stage::Activate
}

/// Whether a stage of a start comes before the proxy is spawned.
pub open spec fn before_spawn(stage: Stage) -> bool {
    stage == Stage::Account || stage == Stage::Prepare || stage == Stage::Plugin || stage
        == Stage::Configure || stage == Stage::Binary || stage == Stage::Spawn
}

/// Whether a stage belongs to a start that has not failed.
pub open spec fn start_stage(stage: Stage) -> bool {
    before_spawn(stage) || stage == Stage::Bootstrap || stage == Stage::Caller || stage
        == Stage::Activate || stage == Stage::Detach
}

/// Whether a stage finds out the uplink.
pub open spec fn detect_stage(stage: Stage) -> bool {
    stage == Stage::Route || stage == Stage::Service
}

impl EngineView {
    /// What holds of the engine between any two replies.
    pub open spec fn consistent(self) -> bool {
        &&& self.stage == Stage::Idle <==> self.operation == Operation::Idle
        &&& self.stage == Stage::Idle ==> self.tor_process is None
        &&& start_stage(self.stage) ==> self.operation == Operation::Starting && self.failure
            is None
        &&& before_spawn(self.stage) ==> self.tor_process is None
        &&& plan_stage(self.stage) ==> !self.run.finished() && spawns_nothing(self.run.steps)
        &&& self.stage == Stage::Teardown ==> self.run.mode == Mode::RunEverything
            && installs_nothing(self.run.steps) && self.run.steps.len() <= TEARDOWN_MAX
        &&& self.stage == Stage::Prepare || self.stage == Stage::Configure ==> self.run.mode
            == Mode::HaltOnFailure && installs_nothing(self.run.steps) && self.run.steps.len()
            <= FILES_MAX
        &&& self.stage == Stage::Activate ==> self.run.mode == Mode::HaltOnFailure
            && self.run.steps.len() <= ACTIVATION_MAX && (!self.config.firewall.enable_kill_switch
            ==> installs_nothing(self.run.steps))
        &&& self.stage == Stage::Plugin || self.stage == Stage::Binary ==> !self.places.finished()
            && self.places.places.len() <= PLACES_MAX
        &&& self.stage == Stage::Account ==> !self.accounts.finished() && self.accounts.candidate
            < crate::privilege::CANDIDATES
        &&& self.stage == Stage::Bootstrap ==> !self.bootstrap.finished() && self.bootstrap.failed
            <= crate::bootstrap::MAX_ATTEMPTS
        &&& detect_stage(self.stage) ==> self.resume == Stage::Teardown || (self.resume
            == Stage::Activate && self.operation == Operation::Starting && self.failure is None
            && !self.owner_missing())
        &&& self.stage == Stage::Activate ==> !self.owner_missing() && !self.uplink_missing()
    }

    /// Whether a start is being rolled back.
    pub open spec fn rolling_back(self) -> bool {
        self.operation == Operation::Starting && self.failure is Some
    }
}

/// The teardown installs nothing and is never empty, whatever the firewall,
/// and whether a process is held or not; where none is held it lets every
/// refusal pass.
pub proof fn lemma_teardown_installs_nothing(
    firewall: FirewallView,
    handle: Option<ProcessHandle>,
    layout: Option<LayoutView>,
)
    ensures
        installs_nothing(teardown_steps(firewall, handle, layout)),
        spawns_nothing(teardown_steps(firewall, handle, layout)),
        teardown_steps(firewall, handle, layout).len() > 0,
        teardown_steps(firewall, handle, layout).len() <= TEARDOWN_MAX,
        handle is None ==> lenient(teardown_steps(firewall, handle, layout)),
{
    let steps = teardown_steps(firewall, handle, layout);
    let kill = firewall.kill_switch_off();
    let proxy = firewall.proxy_off();
    let stop = stop_process_steps(handle, layout);
    firewall.lemma_switching_off_is_lenient();
    firewall.lemma_plans_spawn_nothing(0);
    firewall.lemma_plans_are_short(0);
    assert forall|i: int| 0 <= i < steps.len() implies !installs((#[trigger] steps[i]).effect)
        && !(steps[i].effect is Spawn) && (handle is None ==> steps[i].tolerance
        != Tolerance::Strict) by {
        if i < kill.len() {
            assert(steps[i] == kill[i]);
        } else if i < kill.len() + proxy.len() {
            assert(steps[i] == proxy[i - kill.len()]);
        } else {
            assert(steps[i] == stop[i - kill.len() - proxy.len()]);
        }
    }
}

/// The plans that set up the files install nothing.
pub proof fn lemma_file_plans_install_nothing(
    layout: LayoutView,
    data_directory: Seq<char>,
    content: Seq<char>,
    account: Option<crate::privilege::PrivilegeContext>,
)
    ensures
        installs_nothing(prepare_steps(layout.base, data_directory, account)),
        installs_nothing(configure_steps(layout, content, account)),
        spawns_nothing(prepare_steps(layout.base, data_directory, account)),
        spawns_nothing(configure_steps(layout, content, account)),
        prepare_steps(layout.base, data_directory, account).len() > 0,
        configure_steps(layout, content, account).len() > 0,
        prepare_steps(layout.base, data_directory, account).len() <= FILES_MAX,
        configure_steps(layout, content, account).len() <= FILES_MAX,
{
    let prepare = prepare_steps(layout.base, data_directory, account);
    assert forall|i: int| 0 <= i < prepare.len() implies !installs((#[trigger] prepare[i]).effect)
        && !(prepare[i].effect is Spawn) by {
        if i >= 3 {
            assert(prepare[i] == crate::engine::plans::owned_by(account, data_directory)[i - 3]);
        }
    }
    let configure = configure_steps(layout, content, account);
    let a = crate::engine::plans::owned_by(account, layout.torrc);
    let b = crate::engine::plans::owned_by(account, layout.log);
    assert forall|i: int| 0 <= i < configure.len() implies !installs(
        (#[trigger] configure[i]).effect,
    ) && !(configure[i].effect is Spawn) by {
        if i == 0 {
        } else if i < 1 + a.len() {
            assert(configure[i] == a[i - 1]);
        } else if i < 1 + a.len() + 5 {
        } else {
            assert(configure[i] == b[i - 1 - a.len() - 5]);
        }
    }
}

/// The activation spawns nothing.
pub proof fn lemma_activation_spawns_nothing(
    firewall: FirewallView,
    policy: crate::config::FirewallConfig,
    socks_port: u16,
)
    ensures
        spawns_nothing(activation_steps(firewall, policy, socks_port)),
        activation_steps(firewall, policy, socks_port).len() <= ACTIVATION_MAX,
{
    firewall.lemma_plans_spawn_nothing(socks_port);
    firewall.lemma_plans_are_short(socks_port);
    let steps = activation_steps(firewall, policy, socks_port);
    let on = if policy.enable_kill_switch {
        firewall.kill_switch_on()
    } else {
        Seq::empty()
    };
    assert forall|i: int| 0 <= i < steps.len() implies !((#[trigger] steps[i]).effect is Spawn) by {
        if i < on.len() {
            assert(steps[i] == on[i]);
        } else {
            assert(steps[i] == firewall.proxy_on(socks_port)[i - on.len()]);
        }
    }
}

/// Where the policy does not ask for the kill switch, the activation installs
/// nothing: it is the proxy setting alone.
pub proof fn lemma_activation_without_kill_switch(
    firewall: FirewallView,
    policy: crate::config::FirewallConfig,
    socks_port: u16,
)
    requires
        !policy.enable_kill_switch,
    ensures
        activation_steps(firewall, policy, socks_port) == firewall.proxy_on(socks_port),
        installs_nothing(activation_steps(firewall, policy, socks_port)),
{
    firewall.lemma_proxy_installs_nothing(socks_port);
    assert(activation_steps(firewall, policy, socks_port) =~= firewall.proxy_on(socks_port));
}

/// What every move of the engine keeps to.
///
/// The engine stays consistent and keeps its configuration. A rule is
/// installed only in the activation, and only where the policy asks for the
/// kill switch. When the operation ends the engine is idle and holds no
/// process. The proxy is spawned only while the engine holds no process.
pub open spec fn lawful(before: EngineView, outcome: (EngineView, ProgressView)) -> bool {
    let (after, progress) = outcome;
    &&& after.consistent()
    &&& after.config == before.config
    &&& after.platform == before.platform
    &&& after.layout == before.layout
    &&& match progress {
        ProgressView::Perform(effect) => {
            &&& after.stage != Stage::Idle
            &&& installs(effect) ==> after.stage == Stage::Activate
                && before.config.firewall.enable_kill_switch
            &&& effect is Spawn ==> after.tor_process is None
        },
        ProgressView::Finished(result) => {
            &&& after.stage == Stage::Idle
            &&& after.tor_process is None
        },
    }
}

/// Whether the move goes on with the same operation and the same failure.
pub open spec fn carries_on(before: EngineView, outcome: (EngineView, ProgressView)) -> bool {
    let (after, progress) = outcome;
    progress is Perform ==> after.operation == before.operation && after.failure == before.failure
}

/// Whether the move belongs to a start that has not failed before it: either
/// the start goes on, or it has failed now and is being rolled back, or it
/// has ended well.
pub open spec fn start_goes_on(outcome: (EngineView, ProgressView)) -> bool {
    let (after, progress) = outcome;
    match progress {
        ProgressView::Perform(effect) => after.operation == Operation::Starting,
        ProgressView::Finished(result) => result is Ok,
    }
}

proof fn lemma_finish(s: EngineView, result: Result<(), NipeErrorView>)
    requires
        s.tor_process is None,
    ensures
        lawful(s, s.finish(result)),
{
}

proof fn lemma_enter_teardown(s: EngineView)
    requires
        s.operation != Operation::Idle,
    ensures
        lawful(s, s.enter_teardown()),
        carries_on(s, s.enter_teardown()),
        s.enter_teardown().1 is Perform,
        s.enter_teardown().0.stage == Stage::Teardown,
        s.enter_teardown().0.run == PlanRunView::start(
            teardown_steps(s.firewall_now(), s.tor_process, s.layout),
            Mode::RunEverything,
        ),
        s.enter_teardown().0.run.steps.len() <= TEARDOWN_MAX,
        s.tor_process is None ==> lenient(s.enter_teardown().0.run.steps),
        budget(s.enter_teardown().0) > 0,
        budget(s.enter_teardown().0) <= 191,
        !(s.operation == Operation::Starting && s.failure is None) ==> budget(
            s.enter_teardown().0,
        ) <= TEARDOWN_MAX,
{
    lemma_teardown_installs_nothing(s.firewall_now(), s.tor_process, s.layout);
}

proof fn lemma_seek_teardown(s: EngineView)
    requires
        s.operation != Operation::Idle,
    ensures
        lawful(s, s.seek_teardown()),
        carries_on(s, s.seek_teardown()),
        s.seek_teardown().1 is Perform,
        budget(s.seek_teardown().0) > 0,
        budget(s.seek_teardown().0) <= 193,
        !(s.operation == Operation::Starting && s.failure is None) ==> budget(
            s.seek_teardown().0,
        ) <= UNWIND_MAX,
{
    if !s.uplink_missing() {
        lemma_enter_teardown(s);
    }
}

proof fn lemma_fail(s: EngineView, error: NipeErrorView)
    requires
        s.operation == Operation::Starting,
        s.failure is None,
    ensures
        lawful(s, s.fail(error)),
        s.fail(error).1 is Perform,
        s.fail(error).0.rolling_back(),
        s.fail(error).0.failure == Some(error),
        budget(s.fail(error).0) <= UNWIND_MAX,
        budget(s.fail(error).0) > 0,
{
    lemma_seek_teardown(EngineView { failure: Some(error), ..s });
}

proof fn lemma_enter_detach(s: EngineView)
    requires
        s.operation == Operation::Starting,
        s.failure is None,
    ensures
        lawful(s, s.enter_detach()),
        start_goes_on(s.enter_detach()),
        budget(s.enter_detach().0) <= 1,
{
}

proof fn lemma_enter_activate(s: EngineView)
    requires
        s.operation == Operation::Starting,
        s.failure is None,
        !s.owner_missing(),
    ensures
        lawful(s, s.enter_activate()),
        start_goes_on(s.enter_activate()),
        budget(s.enter_activate().0) <= 24,
{
    if s.uplink_missing() {
        lemma_fail(s, NipeErrorView::InterfaceNotFound);
    } else {
        let firewall = s.firewall_now();
        let steps = activation_steps(firewall, s.config.firewall, s.config.tor.socks_port);
        lemma_activation_spawns_nothing(firewall, s.config.firewall, s.config.tor.socks_port);
        let next = EngineView {
            stage: Stage::Activate,
            run: PlanRunView::start(steps, Mode::HaltOnFailure),
            ..s
        };
        if !s.config.firewall.enable_kill_switch {
            lemma_activation_without_kill_switch(
                firewall,
                s.config.firewall,
                s.config.tor.socks_port,
            );
        }
        if next.run.finished() {
            lemma_enter_detach(next);
        } else {
            if !s.config.firewall.enable_kill_switch {
                assert(!installs(steps[0].effect));
            }
        }
    }
}

proof fn lemma_seek_uplink(s: EngineView)
    requires
        s.operation == Operation::Starting,
        s.failure is None,
        !s.owner_missing(),
    ensures
        lawful(s, s.seek_uplink()),
        start_goes_on(s.seek_uplink()),
        budget(s.seek_uplink().0) <= 29,
{
    if !s.uplink_missing() {
        lemma_enter_activate(s);
    }
}

proof fn lemma_seek_activation(s: EngineView)
    requires
        s.operation == Operation::Starting,
        s.failure is None,
    ensures
        lawful(s, s.seek_activation()),
        start_goes_on(s.seek_activation()),
        budget(s.seek_activation().0) <= 30,
{
    if !s.owner_missing() {
        lemma_seek_uplink(s);
    }
}

proof fn lemma_on_caller(s: EngineView, reply: ReplyView)
    requires
        s.consistent(),
        s.stage == Stage::Caller,
    ensures
        lawful(s, s.on_caller(reply)),
        start_goes_on(s.on_caller(reply)) || s.on_caller(reply).0.rolling_back(),
        budget(s.on_caller(reply).0) < 30,
{
    if crate::privilege::succeeded(reply) && crate::privilege::printed_id(reply) is Some {
        lemma_seek_uplink(EngineView { caller: crate::privilege::printed_id(reply), ..s });
    } else {
        lemma_fail(s, caller_unknown(reply));
    }
}

proof fn lemma_enter_bootstrap(s: EngineView)
    requires
        s.operation == Operation::Starting,
        s.failure is None,
    ensures
        lawful(s, s.enter_bootstrap()),
        start_goes_on(s.enter_bootstrap()),
        !installs(s.enter_bootstrap().1->Perform_0),
        budget(s.enter_bootstrap().0) == 150,
{
}

proof fn lemma_enter_spawn(s: EngineView)
    requires
        s.operation == Operation::Starting,
        s.failure is None,
        s.tor_process is None,
    ensures
        lawful(s, s.enter_spawn()),
        start_goes_on(s.enter_spawn()),
        s.enter_spawn().1 is Perform,
        !installs(s.enter_spawn().1->Perform_0),
        budget(s.enter_spawn().0) <= 151,
{
    if s.layout is None {
        lemma_fail(
            s,
            NipeErrorView::ConfigError(
                "data directory has no parent: "@ + s.config.tor.data_directory,
            ),
        );
    }
}

proof fn lemma_enter_binary(s: EngineView)
    requires
        s.operation == Operation::Starting,
        s.failure is None,
        s.tor_process is None,
    ensures
        lawful(s, s.enter_binary()),
        start_goes_on(s.enter_binary()),
        s.enter_binary().1 is Perform,
        !installs(s.enter_binary().1->Perform_0),
        budget(s.enter_binary().0) == 156,
{
    assert(crate::locate::tor_places().len() == 5);
}

proof fn lemma_enter_configure(s: EngineView)
    requires
        s.operation == Operation::Starting,
        s.failure is None,
        s.tor_process is None,
    ensures
        lawful(s, s.enter_configure()),
        start_goes_on(s.enter_configure()),
        s.enter_configure().1 is Perform,
        !installs(s.enter_configure().1->Perform_0),
        budget(s.enter_configure().0) <= 164,
{
    match s.layout {
        Some(layout) => {
            let content = crate::torrc::torrc_text(s.config.tor, s.plugin_choice());
            lemma_file_plans_install_nothing(
                layout,
                s.config.tor.data_directory,
                content,
                s.tor_user,
            );
            let steps = configure_steps(layout, content, s.tor_user);
            assert(!installs(steps[0].effect));
        },
        None => {
            lemma_fail(
                s,
                NipeErrorView::ConfigError(
                    "data directory has no parent: "@ + s.config.tor.data_directory,
                ),
            );
        },
    }
}

proof fn lemma_enter_plugin(s: EngineView)
    requires
        s.operation == Operation::Starting,
        s.failure is None,
        s.tor_process is None,
    ensures
        lawful(s, s.enter_plugin()),
        start_goes_on(s.enter_plugin()),
        s.enter_plugin().1 is Perform,
        !installs(s.enter_plugin().1->Perform_0),
        budget(s.enter_plugin().0) <= 167,
{
    if crate::torrc::plugin_wanted(s.config.tor) {
        assert(crate::torrc::plugin_places(s.platform).len() > 0);
    } else {
        lemma_enter_configure(s);
    }
}

proof fn lemma_enter_prepare(s: EngineView)
    requires
        s.operation == Operation::Starting,
        s.failure is None,
        s.tor_process is None,
    ensures
        lawful(s, s.enter_prepare()),
        start_goes_on(s.enter_prepare()),
        s.enter_prepare().1 is Perform,
        !installs(s.enter_prepare().1->Perform_0),
        budget(s.enter_prepare().0) <= 177,
{
    match s.layout {
        Some(layout) => {
            lemma_file_plans_install_nothing(
                layout,
                s.config.tor.data_directory,
                Seq::empty(),
                s.tor_user,
            );
            let steps = prepare_steps(layout.base, s.config.tor.data_directory, s.tor_user);
            assert(!installs(steps[0].effect));
        },
        None => {
            lemma_fail(
                s,
                NipeErrorView::ConfigError(
                    "data directory has no parent: "@ + s.config.tor.data_directory,
                ),
            );
        },
    }
}

proof fn lemma_enter_account(s: EngineView)
    requires
        s.operation == Operation::Starting,
        s.failure is None,
        s.tor_process is None,
    ensures
        lawful(s, s.enter_account()),
        start_goes_on(s.enter_account()),
        s.enter_account().1 is Perform,
        !installs(s.enter_account().1->Perform_0),
        budget(s.enter_account().0) == 183,
{
}

/// What every move of a start that is being rolled back keeps to: it does
/// not install a rule, and it ends the start with the failure that is being
/// rolled back, and with no other.
pub open spec fn unwinds(before: EngineView, outcome: (EngineView, ProgressView)) -> bool {
    let (after, progress) = outcome;
    before.rolling_back() ==> match progress {
        ProgressView::Perform(effect) => !installs(effect) && after.rolling_back() && after.failure
            == before.failure,
        ProgressView::Finished(result) => result == Err::<(), NipeErrorView>(
            before.failure.unwrap(),
        ),
    }
}

/// What every move of a start keeps to before the activation has begun: it
/// installs no rule unless it begins the activation.
pub open spec fn holds_back(before: EngineView, outcome: (EngineView, ProgressView)) -> bool {
    let (after, progress) = outcome;
    progress matches ProgressView::Perform(effect) ==> (installs(effect) ==> after.stage
        == Stage::Activate)
}

proof fn lemma_on_plan(s: EngineView, reply: ReplyView)
    requires
        s.consistent(),
        plan_stage(s.stage),
    ensures
        lawful(s, s.on_plan(reply)),
        unwinds(s, s.on_plan(reply)),
{
    let next = EngineView { run: s.run.record(reply), ..s };
    assert(next.run.steps == s.run.steps);
    if next.run.finished() {
        assert(next.consistent_but_for_the_plan()) by {
            reveal(EngineView::consistent_but_for_the_plan);
        }
        lemma_plan_over(next);
    } else {
        let effect = next.run.steps[next.run.next as int].effect;
        if s.stage != Stage::Activate || !s.config.firewall.enable_kill_switch {
            assert(!installs(effect));
        }
    }
}

impl EngineView {
    /// Consistency at the moment at which the plan in flight has just
    /// finished and the engine has not moved on yet.
    #[verifier::opaque]
    pub open spec fn consistent_but_for_the_plan(self) -> bool {
        (EngineView { run: PlanRunView { next: 0, failure: None, ..self.run }, ..self }).consistent()
            && self.run.steps.len() > 0
    }
}

proof fn lemma_plan_over(s: EngineView)
    requires
        s.consistent_but_for_the_plan(),
        plan_stage(s.stage),
    ensures
        lawful(s, s.plan_done()),
        s.rolling_back() ==> s.plan_done().1 == ProgressView::Finished(
            Err::<(), NipeErrorView>(s.failure.unwrap()),
        ),
        s.plan_done().1 matches ProgressView::Perform(e) ==> (installs(e) ==> false),
{
    reveal(EngineView::consistent_but_for_the_plan);
    match s.stage {
        Stage::Teardown => {
            let released = EngineView { tor_process: None, ..s };
            match s.operation {
                Operation::Starting => {
                    match s.failure {
                        Some(e) => {
                            lemma_finish(released, Err(e));
                        },
                        None => {
                            lemma_enter_account(released);
                        },
                    }
                },
                _ => {
                    lemma_finish(released, s.teardown_verdict());
                },
            }
        },
        Stage::Prepare => {
            match s.run.failure {
                Some(e) => lemma_fail(s, e),
                None => lemma_enter_plugin(s),
            }
        },
        Stage::Configure => {
            match s.run.failure {
                Some(e) => lemma_fail(s, e),
                None => lemma_enter_binary(s),
            }
        },
        _ => {
            match s.run.failure {
                Some(e) => lemma_fail(s, e),
                None => lemma_enter_detach(s),
            }
        },
    }
}

proof fn lemma_uplink_unknown(s: EngineView)
    requires
        s.consistent(),
        detect_stage(s.stage),
    ensures
        lawful(s, s.uplink_unknown()),
        unwinds(s, s.uplink_unknown()),
        s.uplink_unknown().1 matches ProgressView::Perform(e) ==> !installs(e),
        s.uplink_unknown().1 is Perform,
        s.uplink_unknown().0.operation == s.operation,
        budget(s.uplink_unknown().0) + 2 <= budget(s),
{
    if s.resume == Stage::Activate {
        lemma_fail(s, NipeErrorView::InterfaceNotFound);
    } else {
        lemma_enter_teardown(s);
    }
}

proof fn lemma_on_route(s: EngineView, reply: ReplyView)
    requires
        s.consistent(),
        s.stage == Stage::Route,
    ensures
        lawful(s, s.on_route(reply)),
        unwinds(s, s.on_route(reply)),
        s.on_route(reply).1 matches ProgressView::Perform(e) ==> !installs(e),
        s.on_route(reply).0.operation == s.operation,
        budget(s.on_route(reply).0) < budget(s),
{
    lemma_uplink_unknown(s);
}

proof fn lemma_on_service(s: EngineView, reply: ReplyView)
    requires
        s.consistent(),
        s.stage == Stage::Service,
    ensures
        lawful(s, s.on_service(reply)),
        unwinds(s, s.on_service(reply)),
        s.on_service(reply).1 is Perform ==> budget(s.on_service(reply).0) < budget(s),
{
    let service = match reply {
        ReplyView::Exited { success, stdout, stderr } => Some(
            crate::platform::macos::service_of(s.interface, stdout),
        ),
        _ => None,
    };
    let known = EngineView {
        uplink: Some(crate::engine::UplinkView { interface: s.interface, service }),
        ..s
    };
    if s.resume == Stage::Activate {
        lemma_enter_activate(known);
    } else {
        lemma_enter_teardown(known);
    }
}

proof fn lemma_on_account(s: EngineView, reply: ReplyView)
    requires
        s.consistent(),
        s.stage == Stage::Account,
    ensures
        lawful(s, s.on_account(reply)),
        s.on_account(reply).1 matches ProgressView::Perform(e) ==> !installs(e),
{
    let probe = s.accounts.after(reply);
    let next = EngineView { accounts: probe, ..s };
    if probe.finished() {
        lemma_enter_prepare(
            EngineView {
                tor_user: probe.account(),
                warnings: if probe.account() is None {
                    s.warnings.push(crate::engine::plans::privilege_warning())
                } else {
                    s.warnings
                },
                ..next
            },
        );
    }
}

proof fn lemma_on_plugin(s: EngineView, reply: ReplyView)
    requires
        s.consistent(),
        s.stage == Stage::Plugin,
    ensures
        lawful(s, s.on_plugin(reply)),
        s.on_plugin(reply).1 matches ProgressView::Perform(e) ==> !installs(e),
{
    let probe = s.places.after(reply);
    let next = EngineView { places: probe, ..s };
    if probe.finished() {
        lemma_enter_configure(EngineView { plugin: probe.choice(), ..next });
    }
}

proof fn lemma_on_binary(s: EngineView, reply: ReplyView)
    requires
        s.consistent(),
        s.stage == Stage::Binary,
    ensures
        lawful(s, s.on_binary(reply)),
        s.on_binary(reply).1 matches ProgressView::Perform(e) ==> !installs(e),
{
    let probe = s.places.after(reply);
    let next = EngineView { places: probe, ..s };
    if probe.finished() {
        lemma_enter_spawn(EngineView { binary: probe.choice(), ..next });
    }
}

proof fn lemma_on_spawn(s: EngineView, reply: ReplyView)
    requires
        s.consistent(),
        s.stage == Stage::Spawn,
    ensures
        lawful(s, s.on_spawn(reply)),
        s.on_spawn(reply).1 matches ProgressView::Perform(e) ==> !installs(e),
        !(reply is Spawned) ==> s.on_spawn(reply).0.rolling_back() && s.on_spawn(reply).0.failure
            == Some(NipeErrorView::TorStartFailed(reply_text(reply))) && s.on_spawn(reply).1
            is Perform,
        budget(s.on_spawn(reply).0) <= 150,
{
    match reply {
        ReplyView::Spawned { pid } => {
            lemma_enter_bootstrap(EngineView { tor_process: Some(ProcessHandle { pid }), ..s });
        },
        _ => {
            lemma_fail(s, NipeErrorView::TorStartFailed(reply_text(reply)));
        },
    }
}

proof fn lemma_on_bootstrap(s: EngineView, reply: ReplyView)
    requires
        s.consistent(),
        s.stage == Stage::Bootstrap,
    ensures
        lawful(s, s.on_bootstrap(reply)),
{
    let monitor = s.bootstrap.after(reply);
    let next = EngineView { bootstrap: monitor, ..s };
    if monitor.finished() {
        match monitor.outcome() {
            Some(e) => lemma_fail(next, e),
            None => lemma_seek_activation(next),
        }
    }
}

/// Every reply moves a consistent engine lawfully; a start that is being
/// rolled back unwinds; and before the activation no rule is installed.
pub proof fn lemma_step_is_lawful(s: EngineView, reply: ReplyView)
    requires
        s.consistent(),
    ensures
        lawful(s, s.step(reply)),
        unwinds(s, s.step(reply)),
        holds_back(s, s.step(reply)),
{
    match s.stage {
        Stage::Idle => {
            lemma_finish(s, Ok(()));
        },
        Stage::Route => {
            lemma_on_route(s, reply);
        },
        Stage::Service => {
            lemma_on_service(s, reply);
        },
        Stage::Teardown => {
            lemma_on_plan(s, reply);
        },
        Stage::Account => {
            lemma_on_account(s, reply);
        },
        Stage::Prepare => {
            lemma_on_plan(s, reply);
        },
        Stage::Plugin => {
            lemma_on_plugin(s, reply);
        },
        Stage::Configure => {
            lemma_on_plan(s, reply);
        },
        Stage::Binary => {
            lemma_on_binary(s, reply);
        },
        Stage::Spawn => {
            lemma_on_spawn(s, reply);
        },
        Stage::Bootstrap => {
            lemma_on_bootstrap(s, reply);
        },
        Stage::Caller => {
            lemma_on_caller(s, reply);
        },
        Stage::Activate => {
            lemma_on_plan(s, reply);
        },
        Stage::Detach => {
            lemma_finish(EngineView { tor_process: None, ..s }, Ok(()));
        },
    }
}

/// A start and a stop begin lawfully, whatever state the engine was left in,
/// and neither begins by installing a rule.
pub proof fn lemma_begin_is_lawful(s: EngineView)
    ensures
        lawful(s, s.begin_start()),
        lawful(s, s.begin_stop()),
        s.begin_start().1 matches ProgressView::Perform(e) && !installs(e),
        s.begin_stop().1 matches ProgressView::Perform(e) && !installs(e),
        s.begin_start().0.operation == Operation::Starting,
        s.begin_start().0.failure is None,
        s.begin_stop().0.operation == Operation::Stopping,
{
    lemma_seek_teardown(s.cleared(Operation::Starting));
    lemma_seek_teardown(s.cleared(Operation::Stopping));
}

/// The engine that was just made is consistent.
pub proof fn lemma_fresh_is_consistent(
    config: NipeConfigView,
    platform: Platform,
    layout: Option<LayoutView>,
)
    ensures
        EngineView::fresh(config, platform, layout).consistent(),
{
}

/// A reply does not change the operation in flight, except to end it.
pub proof fn lemma_operation_is_kept(s: EngineView, reply: ReplyView)
    requires
        s.consistent(),
    ensures
        s.step(reply).1 is Perform ==> s.step(reply).0.operation == s.operation,
{
    lemma_step_is_lawful(s, reply);
    if s.stage == Stage::Route {
        lemma_on_route(s, reply);
    }
}

/// The reply that says that the proxy could not be spawned makes the start
/// fail with what the reply says, and the rollback begins.
pub proof fn lemma_failed_spawn(s: EngineView, reply: ReplyView)
    requires
        s.consistent(),
        s.stage == Stage::Spawn,
        !(reply is Spawned),
    ensures
        s.step(reply).0.rolling_back(),
        s.step(reply).0.failure == Some(NipeErrorView::TorStartFailed(reply_text(reply))),
        s.step(reply).1 is Perform,
        !installs(s.step(reply).1->Perform_0),
{
    lemma_on_spawn(s, reply);
}

/// The reply with which the bootstrap monitor times out makes the start fail
/// with the timeout, and the rollback begins.
pub proof fn lemma_bootstrap_timeout_fails(s: EngineView, reply: ReplyView)
    requires
        s.consistent(),
        s.stage == Stage::Bootstrap,
        s.bootstrap.after(reply).phase == crate::bootstrap::Phase::TimedOut,
    ensures
        s.step(reply).0.rolling_back(),
        s.step(reply).0.failure == Some(NipeErrorView::BootstrapTimeout),
        s.step(reply).1 is Perform,
{
    let next = EngineView { bootstrap: s.bootstrap.after(reply), ..s };
    lemma_fail(next, NipeErrorView::BootstrapTimeout);
}

/// Where a reply takes the engine into the teardown while it holds no
/// process, the plan of the teardown lets every refusal pass and has met no
/// failure.
pub proof fn lemma_teardown_begins_leniently(s: EngineView, reply: ReplyView)
    requires
        s.consistent(),
        detect_stage(s.stage),
        s.tor_process is None,
    ensures
        s.step(reply).0.stage == Stage::Teardown ==> s.step(reply).0.run.failure is None
            && lenient(s.step(reply).0.run.steps),
{
    let service = match reply {
        ReplyView::Exited { success, stdout, stderr } => Some(
            crate::platform::macos::service_of(s.interface, stdout),
        ),
        _ => None,
    };
    let known = EngineView {
        uplink: Some(crate::engine::UplinkView { interface: s.interface, service }),
        ..s
    };
    if s.resume == Stage::Activate {
        lemma_fail(s, NipeErrorView::InterfaceNotFound);
        lemma_enter_teardown(EngineView { failure: Some(NipeErrorView::InterfaceNotFound), ..s });
    } else {
        lemma_enter_teardown(s);
        lemma_enter_teardown(known);
    }
}

/// A stop of an engine that holds no process begins with a teardown that
/// lets every refusal pass, or with the search for the uplink.
pub proof fn lemma_stop_begins_leniently(s: EngineView)
    requires
        s.tor_process is None,
    ensures
        s.begin_stop().0.stage == Stage::Teardown ==> s.begin_stop().0.run.failure is None
            && lenient(s.begin_stop().0.run.steps),
        s.begin_stop().0.tor_process is None,
{
    let stopping = s.cleared(Operation::Stopping);
    if !stopping.uplink_missing() {
        lemma_enter_teardown(stopping);
    }
}

/// The rules of the kill switch always name an account: while the kill switch
/// is being switched on, on a host whose rules name the account whose
/// traffic may leave, that account is known, the proxy's own or the
/// caller's.
pub proof fn lemma_rules_name_a_known_account(s: EngineView)
    requires
        s.consistent(),
        s.stage == Stage::Activate,
        s.config.firewall.enable_kill_switch,
        s.platform != Platform::Windows,
    ensures
        s.tor_user is Some || s.caller is Some,
        crate::engine::plans::traffic_owner(s.tor_user, s.caller).len() > 0,
{
    match s.tor_user {
        Some(a) => crate::text::lemma_decimal_is_not_empty(a.uid as nat),
        None => crate::text::lemma_decimal_is_not_empty(s.caller.unwrap() as nat),
    }
}

/// The place of the engine in the order of an operation: the first teardown
/// of a start, its stages one after the other, the rollback, the end.
pub open spec fn place(s: EngineView) -> nat {
    if s.operation == Operation::Starting && s.failure is None {
        match s.stage {
            Stage::Account => 1,
            Stage::Prepare => 2,
            Stage::Plugin => 3,
            Stage::Configure => 4,
            Stage::Binary => 5,
            Stage::Spawn => 6,
            Stage::Bootstrap => 7,
            Stage::Caller => 8,
            Stage::Activate => 9,
            Stage::Detach => 10,
            Stage::Teardown => 0,
            _ => if s.resume == Stage::Activate {
                8
            } else {
                0
            },
        }
    } else if s.operation == Operation::Idle {
        12
    } else {
        11
    }
}

/// A reply never takes the engine back to an earlier place.
pub proof fn lemma_order_is_kept(s: EngineView, reply: ReplyView)
    requires
        s.consistent(),
    ensures
        place(s) <= place(s.step(reply).0),
{
    lemma_step_is_lawful(s, reply);
    lemma_operation_is_kept(s, reply);
    match s.stage {
        Stage::Idle => {},
        Stage::Route => {
            lemma_on_route(s, reply);
        },
        Stage::Service => {
            lemma_on_service(s, reply);
        },
        Stage::Caller => {
            lemma_on_caller(s, reply);
        },
        Stage::Teardown => {
            lemma_on_plan(s, reply);
        },
        Stage::Account => {
            lemma_on_account(s, reply);
        },
        Stage::Prepare => {
            lemma_on_plan(s, reply);
        },
        Stage::Plugin => {
            lemma_on_plugin(s, reply);
        },
        Stage::Configure => {
            lemma_on_plan(s, reply);
        },
        Stage::Binary => {
            lemma_on_binary(s, reply);
        },
        Stage::Spawn => {
            lemma_on_spawn(s, reply);
        },
        Stage::Bootstrap => {
            lemma_on_bootstrap(s, reply);
        },
        Stage::Activate => {
            lemma_on_plan(s, reply);
        },
        Stage::Detach => {},
    }
}

/// The most effects that a rollback or a stop asks for.
pub const UNWIND_MAX: usize = 10;

/// The most effects that the bootstrap monitor still asks for.
pub open spec fn bootstrap_budget(monitor: Bootstrap) -> nat {
    let left = 2 * (crate::bootstrap::MAX_ATTEMPTS - monitor.failed);
    match monitor.phase {
        crate::bootstrap::Phase::Checking => if left > 0 {
            left as nat
        } else {
            1
        },
        crate::bootstrap::Phase::Pausing => (left + 1) as nat,
        _ => 0,
    }
}

/// The most effects that the search for the account still asks for.
pub open spec fn account_budget(probe: crate::privilege::AccountProbe) -> nat {
    let left = 2 * (crate::privilege::CANDIDATES - probe.candidate);
    match probe.search {
        crate::privilege::Search::User => left as nat,
        crate::privilege::Search::Group { uid } => (left - 1) as nat,
        _ => 0,
    }
}

/// The steps of the plan in flight that are still to be answered.
pub open spec fn plan_budget(run: PlanRunView) -> nat {
    (run.steps.len() - run.next) as nat
}

/// The places of the search in flight that are still to be asked about.
pub open spec fn places_budget(probe: crate::locate::PathProbeView) -> nat {
    (probe.places.len() - probe.next) as nat
}

/// A bound on the number of effects that the engine still asks for before
/// the operation in flight ends, the one that is under way counted in.
pub open spec fn budget(s: EngineView) -> nat {
    if s.operation == Operation::Starting && s.failure is None {
        match s.stage {
            Stage::Idle => 0,
            Stage::Detach => 1,
            Stage::Activate => plan_budget(s.run) + 11,
            Stage::Caller => 30,
            Stage::Bootstrap => bootstrap_budget(s.bootstrap) + 30,
            Stage::Spawn => 151,
            Stage::Binary => places_budget(s.places) + 151,
            Stage::Configure => plan_budget(s.run) + 156,
            Stage::Plugin => places_budget(s.places) + 164,
            Stage::Prepare => plan_budget(s.run) + 169,
            Stage::Account => account_budget(s.accounts) + 177,
            Stage::Teardown => plan_budget(s.run) + 183,
            Stage::Route => if s.resume == Stage::Activate {
                29
            } else {
                193
            },
            Stage::Service => if s.resume == Stage::Activate {
                28
            } else {
                192
            },
        }
    } else {
        match s.stage {
            Stage::Route => 10,
            Stage::Service => 9,
            Stage::Teardown => plan_budget(s.run),
            _ => 0,
        }
    }
}

/// Every reply that does not end the operation brings its end nearer: the
/// budget of the engine goes down.
pub proof fn lemma_budget_goes_down(s: EngineView, reply: ReplyView)
    requires
        s.consistent(),
    ensures
        s.step(reply).1 is Perform ==> budget(s.step(reply).0) < budget(s),
{
    lemma_step_is_lawful(s, reply);
    lemma_operation_is_kept(s, reply);
    match s.stage {
        Stage::Idle => {},
        Stage::Route => {
            lemma_on_route(s, reply);
        },
        Stage::Service => {
            lemma_on_service(s, reply);
        },
        Stage::Account => {
            let probe = s.accounts.after(reply);
            if probe.finished() {
                let next = EngineView {
                    accounts: probe,
                    tor_user: probe.account(),
                    warnings: if probe.account() is None {
                        s.warnings.push(crate::engine::plans::privilege_warning())
                    } else {
                        s.warnings
                    },
                    ..s
                };
                lemma_enter_prepare(next);
            }
        },
        Stage::Plugin => {
            let probe = s.places.after(reply);
            if probe.finished() {
                lemma_enter_configure(EngineView { places: probe, plugin: probe.choice(), ..s });
            }
        },
        Stage::Binary => {
            let probe = s.places.after(reply);
            if probe.finished() {
                lemma_enter_spawn(EngineView { places: probe, binary: probe.choice(), ..s });
            }
        },
        Stage::Spawn => {
            lemma_on_spawn(s, reply);
        },
        Stage::Bootstrap => {
            let monitor = s.bootstrap.after(reply);
            let next = EngineView { bootstrap: monitor, ..s };
            if monitor.finished() {
                match monitor.outcome() {
                    Some(e) => {
                        lemma_fail(next, e);
                    },
                    None => {
                        lemma_seek_activation(next);
                    },
                }
            }
        },
        Stage::Caller => {
            lemma_on_caller(s, reply);
        },
        Stage::Detach => {},
        _ => {
            let next = EngineView { run: s.run.record(reply), ..s };
            lemma_on_plan(s, reply);
            if next.run.finished() {
                assert(next.consistent_but_for_the_plan()) by {
                    reveal(EngineView::consistent_but_for_the_plan);
                }
                lemma_budget_at_plan_end(next);
            }
        },
    }
}

proof fn lemma_budget_at_plan_end(s: EngineView)
    requires
        s.consistent_but_for_the_plan(),
        plan_stage(s.stage),
    ensures
        s.plan_done().1 is Perform ==> s.operation == Operation::Starting && s.failure is None
            && budget(s.plan_done().0) <= match s.stage {
            Stage::Teardown => 183nat,
            Stage::Prepare => 169nat,
            Stage::Configure => 156nat,
            _ => 11nat,
        },
{
    reveal(EngineView::consistent_but_for_the_plan);
    lemma_plan_over(s);
    match s.stage {
        Stage::Teardown => {
            if s.operation == Operation::Starting && s.failure is None {
                lemma_enter_account(EngineView { tor_process: None, ..s });
            }
        },
        Stage::Prepare => {
            match s.run.failure {
                Some(e) => {
                    lemma_fail(s, e);
                },
                None => {
                    lemma_enter_plugin(s);
                },
            }
        },
        Stage::Configure => {
            match s.run.failure {
                Some(e) => {
                    lemma_fail(s, e);
                },
                None => {
                    lemma_enter_binary(s);
                },
            }
        },
        _ => {
            match s.run.failure {
                Some(e) => {
                    lemma_fail(s, e);
                },
                None => {
                    lemma_enter_detach(s);
                },
            }
        },
    }
}

/// A start asks for fewer than two hundred effects, and a stop for no more
/// than ten.
pub proof fn lemma_budget_at_the_beginning(s: EngineView)
    ensures
        budget(s.begin_start().0) <= 193,
        budget(s.begin_stop().0) <= UNWIND_MAX,
{
    lemma_seek_teardown(s.cleared(Operation::Starting));
    lemma_seek_teardown(s.cleared(Operation::Stopping));
}

} // verus!
