//! The engine as a function: what it is after each reply, and what it asks
//! for next.

use vstd::prelude::*;
use crate::bootstrap::Bootstrap;
use crate::config::NipeConfigView;
use crate::engine::plans::{
    activation_steps, caller_query, caller_unknown, configure_steps, prepare_steps,
    privilege_warning, reply_text, route_query, service_query, spawn_request, teardown_steps,
    traffic_owner,
};
use crate::engine::{Operation, ProcessHandle, ProgressView, Stage, UplinkView};
use crate::error::NipeErrorView;
use crate::host::{EffectView, ReplyView};
use crate::layout::LayoutView;
use crate::locate::{tor_fallback, tor_places, PathProbeView};
use crate::plan::{Mode, PlanRunView};
use crate::platform::linux::LinuxFirewallView;
use crate::platform::macos::{interface_in, service_of, MacOSFirewallView};
use crate::platform::{FirewallView, Platform};
use crate::privilege::{printed_id, succeeded, AccountProbe, PrivilegeContext};
use crate::text::lines_of;
use crate::torrc::{plugin_fallback, plugin_places, plugin_wanted, torrc_text};

verus! {

/// The mathematical value of a [`NipeEngine`].
pub struct EngineView {
    pub config: NipeConfigView,
    pub platform: Platform,
    pub layout: Option<LayoutView>,
    /// The process that the engine holds. There is at most one.
    pub tor_process: Option<ProcessHandle>,
    /// The account that the proxy runs under, once it was looked for.
    pub tor_user: Option<PrivilegeContext>,
    pub warnings: Seq<Seq<char>>,
    pub operation: Operation,
    pub stage: Stage,
    /// The user id of the caller, once it was asked for.
    pub caller: Option<u32>,
    /// The stage that waits for the uplink while it is being found out.
    pub resume: Stage,
    /// Why the start in flight is being rolled back.
    pub failure: Option<NipeErrorView>,
    /// The interface of the default route and its network service, once they
    /// were found out in this operation.
    pub uplink: Option<UplinkView>,
    /// The interface of the default route, while its service is asked for.
    pub interface: Seq<char>,
    /// The plan in flight.
    pub run: PlanRunView,
    pub accounts: AccountProbe,
    pub places: PathProbeView,
    pub bootstrap: Bootstrap,
    /// The transport plugin that was found.
    pub plugin: Seq<char>,
    /// The proxy's program that was found.
    pub binary: Seq<char>,
}

impl EngineView {
    /// The engine ends its operation with `result`.
    pub open spec fn finish(self, result: Result<(), NipeErrorView>) -> (EngineView, ProgressView) {
        (
            EngineView { operation: Operation::Idle, stage: Stage::Idle, ..self },
            ProgressView::Finished(result),
        )
    }

    /// The engine goes on with the plan in flight: its next effect.
    pub open spec fn perform_plan(self) -> (EngineView, ProgressView) {
        (self, ProgressView::Perform(self.run.steps[self.run.next as int].effect))
    }

    /// The firewall of the host as far as it is known now. The account whose
    /// traffic is let out and the ports are those of this moment. On a host
    /// whose uplink has to be found out, an uplink that is not known leaves
    /// the interface empty and the service to its default: that is enough
    /// to switch off, and not to switch on.
    pub open spec fn firewall_now(self) -> FirewallView {
        let tor_user = traffic_owner(self.tor_user, self.caller);
        let dns_port = self.config.tor.dns_port;
        let trans_port = self.config.tor.socks_port;
        match self.platform {
            Platform::Windows => FirewallView::Windows,
            Platform::Linux => FirewallView::Linux(
                LinuxFirewallView { tor_user, dns_port, trans_port },
            ),
            Platform::MacOS => FirewallView::MacOS(
                MacOSFirewallView {
                    interface: match self.uplink {
                        Some(u) => u.interface,
                        None => Seq::empty(),
                    },
                    service: match self.uplink {
                        Some(u) => u.service,
                        None => None,
                    },
                    tor_user,
                    dns_port,
                    trans_port,
                },
            ),
        }
    }

    /// The teardown begins, with the firewall as far as it is known. The
    /// process stays in the engine's hands until the teardown is over.
    pub open spec fn enter_teardown(self) -> (EngineView, ProgressView) {
        EngineView {
            stage: Stage::Teardown,
            run: PlanRunView::start(
                teardown_steps(self.firewall_now(), self.tor_process, self.layout),
                Mode::RunEverything,
            ),
            ..self
        }.perform_plan()
    }

    /// Whether the uplink has to be found out before the firewall is known
    /// in full.
    pub open spec fn uplink_missing(self) -> bool {
        self.platform == Platform::MacOS && self.uplink is None
    }

    /// Whether the caller's user id has to be asked for before the kill
    /// switch can be switched on: the rules name the account whose traffic
    /// may leave, no account was found, and the caller is not known yet.
    pub open spec fn owner_missing(self) -> bool {
        self.platform != Platform::Windows && self.config.firewall.enable_kill_switch
            && self.tor_user is None && self.caller is None
    }

    /// The teardown begins as soon as the uplink was looked for: at once,
    /// except on a host whose uplink has to be found out first.
    pub open spec fn seek_teardown(self) -> (EngineView, ProgressView) {
        if self.uplink_missing() {
            (
                EngineView { stage: Stage::Route, resume: Stage::Teardown, ..self },
                ProgressView::Perform(route_query()),
            )
        } else {
            self.enter_teardown()
        }
    }

    /// The activation begins as soon as the uplink is known.
    pub open spec fn seek_uplink(self) -> (EngineView, ProgressView) {
        if self.uplink_missing() {
            (
                EngineView { stage: Stage::Route, resume: Stage::Activate, ..self },
                ProgressView::Perform(route_query()),
            )
        } else {
            self.enter_activate()
        }
    }

    /// The activation begins as soon as the account whose traffic is let out
    /// and the uplink are known.
    pub open spec fn seek_activation(self) -> (EngineView, ProgressView) {
        if self.owner_missing() {
            (EngineView { stage: Stage::Caller, ..self }, ProgressView::Perform(caller_query()))
        } else {
            self.seek_uplink()
        }
    }

    /// The start in flight has failed with `error`: the rollback begins, and
    /// `error` is what the start will end with.
    pub open spec fn fail(self, error: NipeErrorView) -> (EngineView, ProgressView) {
        if self.operation == Operation::Starting && self.failure is None {
            EngineView { failure: Some(error), ..self }.seek_teardown()
        } else {
            self.finish(Err(error))
        }
    }

    /// The search for the account begins.
    pub open spec fn enter_account(self) -> (EngineView, ProgressView) {
        (
            EngineView { stage: Stage::Account, accounts: AccountProbe::initial(), ..self },
            ProgressView::Perform(AccountProbe::initial().wants().unwrap()),
        )
    }

    /// The data directory is prepared. A data directory without a parent is a
    /// mistake of the configuration.
    pub open spec fn enter_prepare(self) -> (EngineView, ProgressView) {
        match self.layout {
            Some(layout) => EngineView {
                stage: Stage::Prepare,
                run: PlanRunView::start(
                    prepare_steps(layout.base, self.config.tor.data_directory, self.tor_user),
                    Mode::HaltOnFailure,
                ),
                ..self
            }.perform_plan(),
            None => self.fail(
                NipeErrorView::ConfigError(
                    "data directory has no parent: "@ + self.config.tor.data_directory,
                ),
            ),
        }
    }

    /// The transport plugin is looked for, where one is wanted and none is
    /// named.
    pub open spec fn enter_plugin(self) -> (EngineView, ProgressView) {
        if plugin_wanted(self.config.tor) {
            let probe = PathProbeView::start(
                plugin_places(self.platform),
                plugin_fallback(self.platform),
            );
            (
                EngineView { stage: Stage::Plugin, places: probe, ..self },
                ProgressView::Perform(probe.wants().unwrap()),
            )
        } else {
            self.enter_configure()
        }
    }

    /// The transport plugin that is written into the runtime configuration:
    /// the one that the configuration names, else the one that was found.
    pub open spec fn plugin_choice(self) -> Seq<char> {
        match self.config.tor.client_transport_plugin {
            Some(p) => p,
            None => self.plugin,
        }
    }

    /// The runtime configuration and the log are written.
    pub open spec fn enter_configure(self) -> (EngineView, ProgressView) {
        match self.layout {
            Some(layout) => EngineView {
                stage: Stage::Configure,
                run: PlanRunView::start(
                    configure_steps(
                        layout,
                        torrc_text(self.config.tor, self.plugin_choice()),
                        self.tor_user,
                    ),
                    Mode::HaltOnFailure,
                ),
                ..self
            }.perform_plan(),
            None => self.fail(
                NipeErrorView::ConfigError(
                    "data directory has no parent: "@ + self.config.tor.data_directory,
                ),
            ),
        }
    }

    /// The proxy's program is looked for.
    pub open spec fn enter_binary(self) -> (EngineView, ProgressView) {
        let probe = PathProbeView::start(tor_places(), tor_fallback());
        (
            EngineView { stage: Stage::Binary, places: probe, ..self },
            ProgressView::Perform(probe.wants().unwrap()),
        )
    }

    /// The proxy is spawned.
    pub open spec fn enter_spawn(self) -> (EngineView, ProgressView) {
        match self.layout {
            Some(layout) => (
                EngineView { stage: Stage::Spawn, ..self },
                ProgressView::Perform(spawn_request(self.binary, layout, self.tor_user)),
            ),
            None => self.fail(
                NipeErrorView::ConfigError(
                    "data directory has no parent: "@ + self.config.tor.data_directory,
                ),
            ),
        }
    }

    /// The verification of the proxy path begins.
    pub open spec fn enter_bootstrap(self) -> (EngineView, ProgressView) {
        let monitor = Bootstrap::initial(self.config.tor.socks_port);
        (
            EngineView { stage: Stage::Bootstrap, bootstrap: monitor, ..self },
            ProgressView::Perform(monitor.wants().unwrap()),
        )
    }

    /// The activation begins. Where it has nothing to do the proxy is let go
    /// of at once. Without the uplink, on a host that has to find it out, the
    /// start fails.
    pub open spec fn enter_activate(self) -> (EngineView, ProgressView) {
        if self.uplink_missing() {
            self.fail(NipeErrorView::InterfaceNotFound)
        } else {
            let next = EngineView {
                stage: Stage::Activate,
                run: PlanRunView::start(
                    activation_steps(
                        self.firewall_now(),
                        self.config.firewall,
                        self.config.tor.socks_port,
                    ),
                    Mode::HaltOnFailure,
                ),
                ..self
            };
            if next.run.finished() {
                next.enter_detach()
            } else {
                next.perform_plan()
            }
        }
    }

    /// The proxy is let go of, so that it outlives the engine.
    pub open spec fn enter_detach(self) -> (EngineView, ProgressView) {
        match self.tor_process {
            Some(h) => (
                EngineView { stage: Stage::Detach, ..self },
                ProgressView::Perform(EffectView::Detach { pid: h.pid }),
            ),
            None => self.finish(Ok(())),
        }
    }

    /// What the teardown in flight reports: the first failure of its plan.
    pub open spec fn teardown_verdict(self) -> Result<(), NipeErrorView> {
        match self.run.failure {
            Some(e) => Err(e),
            None => Ok(()),
        }
    }

    /// The teardown is over, and the engine holds no process any more. A stop
    /// ends with what the teardown reports; a start that is being rolled back
    /// ends with why it failed; a start that has just cleared the ground goes
    /// on, whatever the teardown reports.
    pub open spec fn teardown_done(self) -> (EngineView, ProgressView) {
        let released = EngineView { tor_process: None, ..self };
        match self.operation {
            Operation::Starting => match self.failure {
                Some(e) => released.finish(Err(e)),
                None => released.enter_account(),
            },
            _ => released.finish(self.teardown_verdict()),
        }
    }

    /// The plan in flight is over.
    pub open spec fn plan_done(self) -> (EngineView, ProgressView) {
        match self.stage {
            Stage::Teardown => self.teardown_done(),
            Stage::Prepare => match self.run.failure {
                Some(e) => self.fail(e),
                None => self.enter_plugin(),
            },
            Stage::Configure => match self.run.failure {
                Some(e) => self.fail(e),
                None => self.enter_binary(),
            },
            _ => match self.run.failure {
                Some(e) => self.fail(e),
                None => self.enter_detach(),
            },
        }
    }

    /// The engine after a reply to a step of the plan in flight.
    pub open spec fn on_plan(self, reply: ReplyView) -> (EngineView, ProgressView) {
        let next = EngineView { run: self.run.record(reply), ..self };
        if next.run.finished() {
            next.plan_done()
        } else {
            next.perform_plan()
        }
    }

    /// The uplink could not be found out. The teardown goes on without it; the
    /// activation cannot.
    pub open spec fn uplink_unknown(self) -> (EngineView, ProgressView) {
        if self.resume == Stage::Activate {
            self.fail(NipeErrorView::InterfaceNotFound)
        } else {
            self.enter_teardown()
        }
    }

    /// The engine after the reply to the query for the default route.
    pub open spec fn on_route(self, reply: ReplyView) -> (EngineView, ProgressView) {
        match reply {
            ReplyView::Exited { success, stdout, stderr } => match interface_in(lines_of(stdout)) {
                Some(name) => (
                    EngineView { stage: Stage::Service, interface: name, ..self },
                    ProgressView::Perform(service_query()),
                ),
                None => self.uplink_unknown(),
            },
            _ => self.uplink_unknown(),
        }
    }

    /// The engine after the reply to the query for the hardware ports. A query
    /// that could not be run leaves the service unknown.
    pub open spec fn on_service(self, reply: ReplyView) -> (EngineView, ProgressView) {
        let service = match reply {
            ReplyView::Exited { success, stdout, stderr } => Some(
                service_of(self.interface, stdout),
            ),
            _ => None,
        };
        let known = EngineView {
            uplink: Some(UplinkView { interface: self.interface, service }),
            ..self
        };
        if self.resume == Stage::Activate {
            known.enter_activate()
        } else {
            known.enter_teardown()
        }
    }

    /// The engine after the reply to the query for the caller's user id. A
    /// reply that gives no number fails the start: the rules of the kill
    /// switch cannot be written without it.
    pub open spec fn on_caller(self, reply: ReplyView) -> (EngineView, ProgressView) {
        if succeeded(reply) && printed_id(reply) is Some {
            EngineView { caller: printed_id(reply), ..self }.seek_uplink()
        } else {
            self.fail(caller_unknown(reply))
        }
    }

    /// The engine after a reply to the search for the account.
    pub open spec fn on_account(self, reply: ReplyView) -> (EngineView, ProgressView) {
        let probe = self.accounts.after(reply);
        let next = EngineView { accounts: probe, ..self };
        if probe.finished() {
            EngineView {
                tor_user: probe.account(),
                warnings: if probe.account() is None {
                    self.warnings.push(privilege_warning())
                } else {
                    self.warnings
                },
                ..next
            }.enter_prepare()
        } else {
            (next, ProgressView::Perform(probe.wants().unwrap()))
        }
    }

    /// The engine after a reply to the search for the transport plugin.
    pub open spec fn on_plugin(self, reply: ReplyView) -> (EngineView, ProgressView) {
        let probe = self.places.after(reply);
        let next = EngineView { places: probe, ..self };
        if probe.finished() {
            EngineView { plugin: probe.choice(), ..next }.enter_configure()
        } else {
            (next, ProgressView::Perform(probe.wants().unwrap()))
        }
    }

    /// The engine after a reply to the search for the proxy's program.
    pub open spec fn on_binary(self, reply: ReplyView) -> (EngineView, ProgressView) {
        let probe = self.places.after(reply);
        let next = EngineView { places: probe, ..self };
        if probe.finished() {
            EngineView { binary: probe.choice(), ..next }.enter_spawn()
        } else {
            (next, ProgressView::Perform(probe.wants().unwrap()))
        }
    }

    /// The engine after the reply to the spawn request. Whatever is not a
    /// spawned process is a failed start.
    pub open spec fn on_spawn(self, reply: ReplyView) -> (EngineView, ProgressView) {
        match reply {
            ReplyView::Spawned { pid } => EngineView {
                tor_process: Some(ProcessHandle { pid }),
                ..self
            }.enter_bootstrap(),
            _ => self.fail(NipeErrorView::TorStartFailed(reply_text(reply))),
        }
    }

    /// The engine after a reply to the bootstrap monitor.
    pub open spec fn on_bootstrap(self, reply: ReplyView) -> (EngineView, ProgressView) {
        let monitor = self.bootstrap.after(reply);
        let next = EngineView { bootstrap: monitor, ..self };
        if monitor.finished() {
            match monitor.outcome() {
                Some(e) => next.fail(e),
                None => next.seek_activation(),
            }
        } else {
            (next, ProgressView::Perform(monitor.wants().unwrap()))
        }
    }

    /// The engine after the reply to the request to let go of the proxy.
    pub open spec fn on_detach(self, reply: ReplyView) -> (EngineView, ProgressView) {
        EngineView { tor_process: None, ..self }.finish(Ok(()))
    }

    /// The engine at the beginning of an operation: what the last one left
    /// behind is forgotten.
    pub open spec fn cleared(self, operation: Operation) -> EngineView {
        EngineView { operation, failure: None, uplink: None, caller: None, ..self }
    }

    /// A stop begins: the teardown, whatever the engine holds.
    pub open spec fn begin_stop(self) -> (EngineView, ProgressView) {
        self.cleared(Operation::Stopping).seek_teardown()
    }

    /// A start begins: with a teardown of whatever ran before.
    pub open spec fn begin_start(self) -> (EngineView, ProgressView) {
        self.cleared(Operation::Starting).seek_teardown()
    }

    /// The engine after the host's reply to the effect that it asked for.
    pub open spec fn step(self, reply: ReplyView) -> (EngineView, ProgressView) {
        match self.stage {
            Stage::Idle => self.finish(Ok(())),
            Stage::Route => self.on_route(reply),
            Stage::Service => self.on_service(reply),
            Stage::Teardown => self.on_plan(reply),
            Stage::Account => self.on_account(reply),
            Stage::Prepare => self.on_plan(reply),
            Stage::Plugin => self.on_plugin(reply),
            Stage::Configure => self.on_plan(reply),
            Stage::Binary => self.on_binary(reply),
            Stage::Spawn => self.on_spawn(reply),
            Stage::Bootstrap => self.on_bootstrap(reply),
            Stage::Caller => self.on_caller(reply),
            Stage::Activate => self.on_plan(reply),
            Stage::Detach => self.on_detach(reply),
        }
    }

    /// The engine that was just made.
    pub open spec fn fresh(
        config: NipeConfigView,
        platform: Platform,
        layout: Option<LayoutView>,
    ) -> EngineView {
        EngineView {
            config,
            platform,
            layout,
            tor_process: None,
            tor_user: None,
            warnings: Seq::empty(),
            operation: Operation::Idle,
            stage: Stage::Idle,
            caller: None,
            resume: Stage::Idle,
            failure: None,
            uplink: None,
            interface: Seq::empty(),
            run: PlanRunView::start(Seq::empty(), Mode::HaltOnFailure),
            accounts: AccountProbe::initial(),
            places: PathProbeView::start(Seq::empty(), Seq::empty()),
            bootstrap: Bootstrap::initial(config.tor.socks_port),
            plugin: Seq::empty(),
            binary: Seq::empty(),
        }
    }
}

} // verus!
