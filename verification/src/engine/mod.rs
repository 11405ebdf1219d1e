//! The engine: the state machine that starts, stops and rotates the proxy.
//!
//! An operation is begun with [`NipeEngine::start`] or [`NipeEngine::stop`]
//! and carried on with [`NipeEngine::advance`], one reply of the host at a
//! time, until it is finished. What the engine is after each reply is the
//! function [`model::EngineView::step`]; what holds of every move is proved
//! of that function in [`laws`], and what holds of every run in [`runs`].

pub mod laws;
pub mod model;
pub mod plans;
pub mod runs;

use vstd::prelude::*;
use vstd::string::*;
use crate::bootstrap::Bootstrap;
use crate::config::NipeConfig;
use crate::control::{rotation_plan, rotation_steps};
use crate::engine::model::EngineView;
use crate::engine::plans::{
    account_owner, activation_plan, configure_plan, prepare_plan, privilege_warning,
    route_query, teardown_plan, traffic_owner,
};
use crate::error::{NipeError, NipeErrorView};
use crate::host::{Command, CommandView, Effect, EffectView, Meaning, Reply};
use crate::layout::{layout_for, layout_view, Layout};
use crate::locate::{tor_places, PathProbe};
use crate::plan::{error_view, steps_view, Mode, PlanRun, PlanRunView, Step, StepView};
use crate::platform::linux::LinuxFirewall;
use crate::platform::macos::MacOSFirewall;
use crate::platform::windows::WindowsFirewall;
use crate::platform::{strings, Firewall, Platform};
use crate::config::option_text;
use crate::privilege::{AccountProbe, PrivilegeContext};
use crate::text::parse_trimmed_u32;
use crate::text::{decimal, decimal_string, texts};
use crate::torrc::{generate_torrc, plugin_places};

verus! {

/// The supervised process, as the engine knows it.
#[derive(Clone, Copy, Debug, PartialEq, Eq, Structural)]
pub struct ProcessHandle {
    pub pid: u32,
}

/// The operation that is in flight.
#[derive(Clone, Copy, Debug, PartialEq, Eq, Structural)]
pub enum Operation {
    Idle,
    Stopping,
    Starting,
}

/// Where the operation in flight stands. A start goes through the stages in
/// the order in which they are written, after a first teardown; a failure at
/// any of them leads to a last teardown, the rollback.
#[derive(Clone, Copy, Debug, PartialEq, Eq, Structural)]
pub enum Stage {
    /// No operation is in flight.
    Idle,
    /// The interface of the default route is being asked for.
    Route,
    /// The network service of the interface is being asked for.
    Service,
    /// The kill switch and the proxy setting are taken back and the proxy is
    /// stopped.
    Teardown,
    /// The unprivileged account is being looked for.
    Account,
    /// The data directory is made and locked down.
    Prepare,
    /// The transport plugin is being looked for.
    Plugin,
    /// The runtime configuration and the log are written.
    Configure,
    /// The proxy's program is being looked for.
    Binary,
    /// The proxy is being spawned.
    Spawn,
    /// The proxy path is being verified.
    Bootstrap,
    /// The user id of the caller is being asked for.
    Caller,
    /// The kill switch and the proxy setting are switched on.
    Activate,
    /// The proxy is let go of.
    Detach,
}

/// The way out of the host: the interface of the default route and the
/// network service that it belongs to.
#[derive(Clone, Debug, PartialEq, Eq)]
pub struct Uplink {
    pub interface: String,
    /// The service, if the list of services could be had.
    pub service: Option<String>,
}

/// The mathematical value of an [`Uplink`].
pub struct UplinkView {
    pub interface: Seq<char>,
    pub service: Option<Seq<char>>,
}

impl View for Uplink {
    type V = UplinkView;

    open spec fn view(&self) -> UplinkView {
        UplinkView { interface: self.interface@, service: option_text(self.service) }
    }
}

/// The mathematical value of an optional uplink.
pub open spec fn uplink_view(uplink: Option<Uplink>) -> Option<UplinkView> {
    match uplink {
        Some(u) => Some(u@),
        None => None,
    }
}

/// What the engine asks for next: an effect, or nothing more.
#[derive(Debug, PartialEq, Eq)]
pub enum Progress {
    /// The host carries the effect out and hands its reply to
    /// [`NipeEngine::advance`].
    Perform(Effect),
    /// The operation has ended.
    Finished(Result<(), NipeError>),
}

/// The mathematical value of a [`Progress`].
pub enum ProgressView {
    Perform(EffectView),
    Finished(Result<(), NipeErrorView>),
}

impl View for Progress {
    type V = ProgressView;

    open spec fn view(&self) -> ProgressView {
        match self {
            Progress::Perform(e) => ProgressView::Perform(e@),
            Progress::Finished(r) => ProgressView::Finished(
                match r {
                    Ok(_) => Ok(()),
                    Err(e) => Err(e@),
                },
            ),
        }
    }
}

/// The engine.
#[derive(Debug)]
pub struct NipeEngine {
    config: NipeConfig,
    platform: Platform,
    layout: Option<Layout>,
    tor_process: Option<ProcessHandle>,
    tor_user: Option<PrivilegeContext>,
    caller: Option<u32>,
    warnings: Vec<String>,
    operation: Operation,
    stage: Stage,
    resume: Stage,
    failure: Option<NipeError>,
    uplink: Option<Uplink>,
    interface: String,
    run: PlanRun,
    accounts: AccountProbe,
    places: PathProbe,
    bootstrap: Bootstrap,
    plugin: String,
    binary: String,
}

impl View for NipeEngine {
    type V = EngineView;

    closed spec fn view(&self) -> EngineView {
        EngineView {
            config: self.config@,
            platform: self.platform,
            layout: layout_view(self.layout),
            tor_process: self.tor_process,
            tor_user: self.tor_user,
            caller: self.caller,
            warnings: texts(self.warnings@),
            operation: self.operation,
            stage: self.stage,
            resume: self.resume,
            failure: error_view(self.failure),
            uplink: uplink_view(self.uplink),
            interface: self.interface@,
            run: self.run@,
            accounts: self.accounts,
            places: self.places@,
            bootstrap: self.bootstrap,
            plugin: self.plugin@,
            binary: self.binary@,
        }
    }
}

impl NipeEngine {
    /// The engine for a configuration on a kind of host, with the files where
    /// `layout` says; without a layout no start gets past the account.
    pub fn with_layout(config: NipeConfig, platform: Platform, layout: Option<Layout>) -> (engine:
        NipeEngine)
        ensures
            engine@ == EngineView::fresh(config@, platform, layout_view(layout)),
    {
        let socks_port = config.tor.socks_port;
        let plan: Vec<Step> = Vec::new();
        assert(steps_view(plan@) =~= Seq::<StepView>::empty());
        let places: Vec<String> = Vec::new();
        assert(texts(places@) =~= Seq::<Seq<char>>::empty());
        let warnings: Vec<String> = Vec::new();
        assert(texts(warnings@) =~= Seq::<Seq<char>>::empty());
        NipeEngine {
            config,
            platform,
            layout,
            tor_process: None,
            tor_user: None,
            caller: None,
            warnings,
            operation: Operation::Idle,
            stage: Stage::Idle,
            resume: Stage::Idle,
            failure: None,
            uplink: None,
            interface: String::new(),
            run: PlanRun::new(plan, Mode::HaltOnFailure),
            accounts: AccountProbe::new(),
            places: PathProbe::new(places, String::new()),
            bootstrap: Bootstrap::new(socks_port),
            plugin: String::new(),
            binary: String::new(),
        }
    }

    /// The engine for a configuration on a kind of host. Its files are kept
    /// beside the data directory.
    pub fn new(config: NipeConfig, platform: Platform) -> (r: Result<NipeEngine, NipeError>)
        ensures
            r is Ok,
            r->Ok_0@ == EngineView::fresh(
                config@,
                platform,
                layout_for(config@.tor.data_directory),
            ),
    {
        let layout = Layout::of(config.tor.data_directory.as_str());
        Ok(Self::with_layout(config, platform, layout))
    }

    fn finish(&mut self, result: Result<(), NipeError>) -> (p: Progress)
        ensures
            (final(self)@, p@) == old(self)@.finish(
                match result {
                    Ok(_) => Ok(()),
                    Err(e) => Err(e@),
                },
            ),
    {
        self.operation = Operation::Idle;
        self.stage = Stage::Idle;
        Progress::Finished(result)
    }

    fn perform_plan(&self) -> (p: Progress)
        requires
            !self@.run.finished(),
        ensures
            (self@, p@) == self@.perform_plan(),
    {
        match self.run.current() {
            Some(effect) => Progress::Perform(effect),
            None => Progress::Finished(Ok(())),
        }
    }

    fn traffic_owner(&self) -> (owner: String)
        ensures
            owner@ == traffic_owner(self@.tor_user, self@.caller),
    {
        match self.tor_user {
            Some(a) => decimal_string(a.uid as u64),
            None => match self.caller {
                Some(uid) => decimal_string(uid as u64),
                None => String::new(),
            },
        }
    }

    fn firewall_now(&self) -> (f: Firewall)
        ensures
            f@ == self@.firewall_now(),
    {
        let owner = self.traffic_owner();
        let dns_port = self.config.tor.dns_port;
        let trans_port = self.config.tor.socks_port;
        match self.platform {
            Platform::Windows => Firewall::Windows(WindowsFirewall),
            Platform::Linux => Firewall::Linux(
                LinuxFirewall::for_account(owner.as_str(), dns_port, trans_port),
            ),
            Platform::MacOS => {
                match &self.uplink {
                    Some(u) => Firewall::MacOS(
                        MacOSFirewall::new(
                            u.interface.clone(),
                            match &u.service {
                                Some(name) => Some(name.clone()),
                                None => None,
                            },
                            owner.as_str(),
                            dns_port,
                            trans_port,
                        ),
                    ),
                    None => Firewall::MacOS(
                        MacOSFirewall::new(
                            String::new(),
                            None,
                            owner.as_str(),
                            dns_port,
                            trans_port,
                        ),
                    ),
                }
            },
        }
    }

    fn enter_teardown(&mut self) -> (p: Progress)
        ensures
            (final(self)@, p@) == old(self)@.enter_teardown(),
    {
        let firewall = self.firewall_now();
        let plan = teardown_plan(&firewall, self.tor_process, &self.layout);
        proof {
            crate::engine::laws::lemma_teardown_installs_nothing(
                firewall@,
                self.tor_process,
                layout_view(self.layout),
            );
        }
        self.stage = Stage::Teardown;
        self.run = PlanRun::new(plan, Mode::RunEverything);
        self.perform_plan()
    }

    fn uplink_missing(&self) -> (b: bool)
        ensures
            b == self@.uplink_missing(),
    {
        match self.platform {
            Platform::MacOS => self.uplink.is_none(),
            _ => false,
        }
    }

    fn owner_missing(&self) -> (b: bool)
        ensures
            b == self@.owner_missing(),
    {
        let named = match self.platform {
            Platform::Windows => false,
            _ => true,
        };
        named && self.config.firewall.enable_kill_switch && self.tor_user.is_none()
            && self.caller.is_none()
    }

    fn ask_route(&mut self, then: Stage) -> (p: Progress)
        ensures
            final(self)@ == (EngineView { stage: Stage::Route, resume: then, ..old(self)@ }),
            p@ == ProgressView::Perform(route_query()),
    {
        self.stage = Stage::Route;
        self.resume = then;
        Progress::Perform(
            Effect::Run { command: MacOSFirewall::route_query(), meaning: Meaning::Neutral },
        )
    }

    fn seek_teardown(&mut self) -> (p: Progress)
        ensures
            (final(self)@, p@) == old(self)@.seek_teardown(),
    {
        if self.uplink_missing() {
            self.ask_route(Stage::Teardown)
        } else {
            self.enter_teardown()
        }
    }

    fn seek_uplink(&mut self) -> (p: Progress)
        ensures
            (final(self)@, p@) == old(self)@.seek_uplink(),
    {
        if self.uplink_missing() {
            self.ask_route(Stage::Activate)
        } else {
            self.enter_activate()
        }
    }

    fn seek_activation(&mut self) -> (p: Progress)
        ensures
            (final(self)@, p@) == old(self)@.seek_activation(),
    {
        if self.owner_missing() {
            self.stage = Stage::Caller;
            let command = Command { program: String::from_str("id"), args: strings(&["-u"]) };
            assert(command@.args =~= seq!["-u"@]);
            Progress::Perform(Effect::Run { command, meaning: Meaning::Neutral })
        } else {
            self.seek_uplink()
        }
    }

    fn on_caller(&mut self, reply: &Reply) -> (p: Progress)
        ensures
            (final(self)@, p@) == old(self)@.on_caller(reply@),
    {
        let printed = match reply {
            Reply::Exited { success, stdout, stderr } => {
                if *success {
                    parse_trimmed_u32(stdout.as_str())
                } else {
                    None
                }
            },
            _ => None,
        };
        match printed {
            Some(uid) => {
                self.caller = Some(uid);
                self.seek_uplink()
            },
            None => {
                let mut reason = String::from_str("Cannot find out the caller's user id: ");
                match reply {
                    Reply::Failed(text) => {
                        reason.append(text.as_str());
                    },
                    Reply::Exited { success, stdout, stderr } => {
                        reason.append(stderr.as_str());
                    },
                    _ => {
                        assert(reason@ + Seq::<char>::empty() =~= reason@);
                    },
                }
                self.fail(NipeError::FirewallError(reason))
            },
        }
    }

    fn fail(&mut self, error: NipeError) -> (p: Progress)
        ensures
            (final(self)@, p@) == old(self)@.fail(error@),
    {
        let starting = match self.operation {
            Operation::Starting => true,
            _ => false,
        };
        if starting && self.failure.is_none() {
            self.failure = Some(error);
            self.seek_teardown()
        } else {
            self.finish(Err(error))
        }
    }

    fn no_layout(&mut self) -> (p: Progress)
        ensures
            (final(self)@, p@) == old(self)@.fail(
                NipeErrorView::ConfigError(
                    "data directory has no parent: "@ + old(self)@.config.tor.data_directory,
                ),
            ),
    {
        let mut reason = String::from_str("data directory has no parent: ");
        reason.append(self.config.tor.data_directory.as_str());
        self.fail(NipeError::ConfigError(reason))
    }

    fn enter_account(&mut self) -> (p: Progress)
        ensures
            (final(self)@, p@) == old(self)@.enter_account(),
    {
        self.stage = Stage::Account;
        self.accounts = AccountProbe::new();
        match self.accounts.current() {
            Some(effect) => Progress::Perform(effect),
            None => Progress::Finished(Ok(())),
        }
    }

    fn enter_prepare(&mut self) -> (p: Progress)
        ensures
            (final(self)@, p@) == old(self)@.enter_prepare(),
    {
        match &self.layout {
            Some(layout) => {
                let plan = prepare_plan(
                    layout.base.as_str(),
                    self.config.tor.data_directory.as_str(),
                    self.tor_user,
                );
                assert(steps_view(plan@).len() > 0);
                self.stage = Stage::Prepare;
                self.run = PlanRun::new(plan, Mode::HaltOnFailure);
                self.perform_plan()
            },
            None => self.no_layout(),
        }
    }

    fn enter_plugin(&mut self) -> (p: Progress)
        ensures
            (final(self)@, p@) == old(self)@.enter_plugin(),
    {
        if self.config.tor.use_bridges && self.config.tor.client_transport_plugin.is_none() {
            let probe = PathProbe::new(
                crate::torrc::plugin_candidates(self.platform),
                crate::torrc::default_plugin(self.platform),
            );
            assert(plugin_places(self.platform).len() > 0);
            let effect = probe.current();
            self.stage = Stage::Plugin;
            self.places = probe;
            match effect {
                Some(effect) => Progress::Perform(effect),
                None => Progress::Finished(Ok(())),
            }
        } else {
            self.enter_configure()
        }
    }

    fn enter_configure(&mut self) -> (p: Progress)
        ensures
            (final(self)@, p@) == old(self)@.enter_configure(),
    {
        match &self.layout {
            Some(layout) => {
                let content = match &self.config.tor.client_transport_plugin {
                    Some(plugin) => generate_torrc(&self.config.tor, plugin.as_str()),
                    None => generate_torrc(&self.config.tor, self.plugin.as_str()),
                };
                let plan = configure_plan(layout, content, self.tor_user);
                assert(steps_view(plan@).len() > 0);
                self.stage = Stage::Configure;
                self.run = PlanRun::new(plan, Mode::HaltOnFailure);
                self.perform_plan()
            },
            None => self.no_layout(),
        }
    }

    fn enter_binary(&mut self) -> (p: Progress)
        ensures
            (final(self)@, p@) == old(self)@.enter_binary(),
    {
        let probe = PathProbe::for_tor();
        assert(tor_places().len() > 0);
        let effect = probe.current();
        self.stage = Stage::Binary;
        self.places = probe;
        match effect {
            Some(effect) => Progress::Perform(effect),
            None => Progress::Finished(Ok(())),
        }
    }

    fn enter_spawn(&mut self) -> (p: Progress)
        ensures
            (final(self)@, p@) == old(self)@.enter_spawn(),
    {
        match &self.layout {
            Some(layout) => {
                let args = strings(&["-f", layout.torrc.as_str()]);
                assert(texts(args@) =~= seq!["-f"@, layout@.torrc]);
                let effect = Effect::Spawn {
                    program: self.binary.clone(),
                    args,
                    log_path: layout.log.clone(),
                    account: match self.tor_user {
                        Some(a) => Some(account_owner(a)),
                        None => None,
                    },
                };
                self.stage = Stage::Spawn;
                Progress::Perform(effect)
            },
            None => self.no_layout(),
        }
    }

    fn enter_bootstrap(&mut self) -> (p: Progress)
        ensures
            (final(self)@, p@) == old(self)@.enter_bootstrap(),
    {
        self.stage = Stage::Bootstrap;
        self.bootstrap = Bootstrap::new(self.config.tor.socks_port);
        match self.bootstrap.current() {
            Some(effect) => Progress::Perform(effect),
            None => Progress::Finished(Ok(())),
        }
    }

    fn enter_activate(&mut self) -> (p: Progress)
        ensures
            (final(self)@, p@) == old(self)@.enter_activate(),
    {
        if self.uplink_missing() {
            self.fail(NipeError::InterfaceNotFound)
        } else {
            let firewall = self.firewall_now();
            let plan = activation_plan(
                &firewall,
                self.config.firewall,
                self.config.tor.socks_port,
            );
            self.stage = Stage::Activate;
            self.run = PlanRun::new(plan, Mode::HaltOnFailure);
            if self.run.is_finished() {
                self.enter_detach()
            } else {
                self.perform_plan()
            }
        }
    }

    fn enter_detach(&mut self) -> (p: Progress)
        ensures
            (final(self)@, p@) == old(self)@.enter_detach(),
    {
        match self.tor_process {
            Some(h) => {
                self.stage = Stage::Detach;
                Progress::Perform(Effect::Detach { pid: h.pid })
            },
            None => self.finish(Ok(())),
        }
    }

    fn teardown_done(&mut self) -> (p: Progress)
        ensures
            (final(self)@, p@) == old(self)@.teardown_done(),
    {
        let verdict = self.run.verdict();
        self.tor_process = None;
        match self.operation {
            Operation::Starting => {
                match &self.failure {
                    Some(e) => {
                        let error = e.duplicate();
                        self.finish(Err(error))
                    },
                    None => self.enter_account(),
                }
            },
            _ => self.finish(verdict),
        }
    }

    fn plan_done(&mut self) -> (p: Progress)
        ensures
            (final(self)@, p@) == old(self)@.plan_done(),
    {
        match self.stage {
            Stage::Teardown => self.teardown_done(),
            Stage::Prepare => {
                match self.run.verdict() {
                    Err(e) => self.fail(e),
                    Ok(_) => self.enter_plugin(),
                }
            },
            Stage::Configure => {
                match self.run.verdict() {
                    Err(e) => self.fail(e),
                    Ok(_) => self.enter_binary(),
                }
            },
            _ => {
                match self.run.verdict() {
                    Err(e) => self.fail(e),
                    Ok(_) => self.enter_detach(),
                }
            },
        }
    }

    fn on_plan(&mut self, reply: &Reply) -> (p: Progress)
        ensures
            (final(self)@, p@) == old(self)@.on_plan(reply@),
    {
        self.run.record(reply);
        if self.run.is_finished() {
            self.plan_done()
        } else {
            self.perform_plan()
        }
    }

    fn uplink_unknown(&mut self) -> (p: Progress)
        ensures
            (final(self)@, p@) == old(self)@.uplink_unknown(),
    {
        match self.resume {
            Stage::Activate => self.fail(NipeError::InterfaceNotFound),
            _ => self.enter_teardown(),
        }
    }

    fn on_route(&mut self, reply: &Reply) -> (p: Progress)
        ensures
            (final(self)@, p@) == old(self)@.on_route(reply@),
    {
        match reply {
            Reply::Exited { success, stdout, stderr } => {
                match MacOSFirewall::detect_interface(stdout.as_str()) {
                    Ok(name) => {
                        self.stage = Stage::Service;
                        self.interface = name;
                        Progress::Perform(
                            Effect::Run {
                                command: MacOSFirewall::service_query(),
                                meaning: Meaning::Neutral,
                            },
                        )
                    },
                    Err(_) => self.uplink_unknown(),
                }
            },
            _ => self.uplink_unknown(),
        }
    }

    fn on_service(&mut self, reply: &Reply) -> (p: Progress)
        ensures
            (final(self)@, p@) == old(self)@.on_service(reply@),
    {
        let service = match reply {
            Reply::Exited { success, stdout, stderr } => Some(
                MacOSFirewall::detect_service(self.interface.as_str(), stdout.as_str()),
            ),
            _ => None,
        };
        self.uplink = Some(Uplink { interface: self.interface.clone(), service });
        match self.resume {
            Stage::Activate => self.enter_activate(),
            _ => self.enter_teardown(),
        }
    }

    fn on_account(&mut self, reply: &Reply) -> (p: Progress)
        ensures
            (final(self)@, p@) == old(self)@.on_account(reply@),
    {
        self.accounts.record(reply);
        if self.accounts.is_finished() {
            self.tor_user = self.accounts.found();
            if self.tor_user.is_none() {
                let ghost before = texts(self.warnings@);
                self.warnings.push(
                    String::from_str("No unprivileged user found. Tor will run with the caller's privileges!"),
                );
                assert(texts(self.warnings@) =~= before.push(privilege_warning()));
            }
            self.enter_prepare()
        } else {
            match self.accounts.current() {
                Some(effect) => Progress::Perform(effect),
                None => Progress::Finished(Ok(())),
            }
        }
    }

    fn on_plugin(&mut self, reply: &Reply) -> (p: Progress)
        ensures
            (final(self)@, p@) == old(self)@.on_plugin(reply@),
    {
        self.places.record(reply);
        if self.places.is_finished() {
            self.plugin = self.places.result();
            self.enter_configure()
        } else {
            match self.places.current() {
                Some(effect) => Progress::Perform(effect),
                None => Progress::Finished(Ok(())),
            }
        }
    }

    fn on_binary(&mut self, reply: &Reply) -> (p: Progress)
        ensures
            (final(self)@, p@) == old(self)@.on_binary(reply@),
    {
        self.places.record(reply);
        if self.places.is_finished() {
            self.binary = self.places.result();
            self.enter_spawn()
        } else {
            match self.places.current() {
                Some(effect) => Progress::Perform(effect),
                None => Progress::Finished(Ok(())),
            }
        }
    }

    fn on_spawn(&mut self, reply: &Reply) -> (p: Progress)
        ensures
            (final(self)@, p@) == old(self)@.on_spawn(reply@),
    {
        match reply {
            Reply::Spawned { pid } => {
                self.tor_process = Some(ProcessHandle { pid: *pid });
                self.enter_bootstrap()
            },
            Reply::Failed(text) => self.fail(NipeError::TorStartFailed(text.clone())),
            Reply::Exited { success, stdout, stderr } => self.fail(
                NipeError::TorStartFailed(stderr.clone()),
            ),
            _ => self.fail(NipeError::TorStartFailed(String::new())),
        }
    }

    fn on_bootstrap(&mut self, reply: &Reply) -> (p: Progress)
        ensures
            (final(self)@, p@) == old(self)@.on_bootstrap(reply@),
    {
        self.bootstrap.record(reply);
        if self.bootstrap.is_finished() {
            match self.bootstrap.verdict() {
                Err(e) => self.fail(e),
                Ok(_) => self.seek_activation(),
            }
        } else {
            match self.bootstrap.current() {
                Some(effect) => Progress::Perform(effect),
                None => Progress::Finished(Ok(())),
            }
        }
    }

    fn on_detach(&mut self) -> (p: Progress)
        ensures
            (final(self)@, p@) == (EngineView { tor_process: None, ..old(self)@ }).finish(Ok(())),
    {
        self.tor_process = None;
        self.finish(Ok(()))
    }

    fn clear(&mut self, operation: Operation)
        ensures
            final(self)@ == old(self)@.cleared(operation),
    {
        self.operation = operation;
        self.failure = None;
        self.uplink = None;
        self.caller = None;
    }

    /// Begins a start: whatever ran before is stopped, then the proxy is
    /// set up, spawned and verified, and the firewall switched on. The
    /// progress returned is the first thing to do.
    pub fn start(&mut self) -> (p: Progress)
        ensures
            (final(self)@, p@) == old(self)@.begin_start(),
    {
        self.clear(Operation::Starting);
        self.seek_teardown()
    }

    /// Begins a stop: the firewall is switched off and the proxy stopped,
    /// whether anything was on or running or not.
    pub fn stop(&mut self) -> (p: Progress)
        ensures
            (final(self)@, p@) == old(self)@.begin_stop(),
    {
        self.clear(Operation::Stopping);
        self.seek_teardown()
    }

    /// Takes the host's reply to the effect that was asked for last and
    /// says what is to be done next. A reply to an idle engine changes
    /// nothing.
    pub fn advance(&mut self, reply: Reply) -> (p: Progress)
        ensures
            (final(self)@, p@) == old(self)@.step(reply@),
    {
        match self.stage {
            Stage::Idle => self.finish(Ok(())),
            Stage::Route => self.on_route(&reply),
            Stage::Service => self.on_service(&reply),
            Stage::Teardown => self.on_plan(&reply),
            Stage::Account => self.on_account(&reply),
            Stage::Prepare => self.on_plan(&reply),
            Stage::Plugin => self.on_plugin(&reply),
            Stage::Configure => self.on_plan(&reply),
            Stage::Binary => self.on_binary(&reply),
            Stage::Spawn => self.on_spawn(&reply),
            Stage::Bootstrap => self.on_bootstrap(&reply),
            Stage::Caller => self.on_caller(&reply),
            Stage::Activate => self.on_plan(&reply),
            Stage::Detach => self.on_detach(),
        }
    }

    /// The rotation of the identity, as a run that the host carries out: one
    /// connection to the control port, the authentication request with an
    /// empty credential, the request for a new identity. No answer is read.
    pub fn rotate(&self) -> (run: PlanRun)
        ensures
            run@ == PlanRunView::start(
                rotation_steps(self@.config.tor.control_port),
                Mode::HaltOnFailure,
            ),
    {
        PlanRun::new(rotation_plan(self.config.tor.control_port), Mode::HaltOnFailure)
    }

    /// The safety net for the end of the engine's life: a process that is
    /// still held is killed, and the engine holds none after.
    pub fn on_drop(&mut self) -> (e: Option<Effect>)
        ensures
            final(self)@ == (EngineView { tor_process: None, ..old(self)@ }),
            match old(self)@.tor_process {
                Some(h) => e is Some && e.unwrap()@ == (EffectView::Run {
                    command: CommandView {
                        program: "kill"@,
                        args: seq!["-9"@, decimal(h.pid as nat)],
                    },
                    meaning: Meaning::Neutral,
                }),
                None => e is None,
            },
    {
        match self.tor_process {
            Some(h) => {
                self.tor_process = None;
                let pid = decimal_string(h.pid as u64);
                let command = Command {
                    program: String::from_str("kill"),
                    args: strings(&["-9", pid.as_str()]),
                };
                assert(command@.args =~= seq!["-9"@, decimal(h.pid as nat)]);
                Some(Effect::Run { command, meaning: Meaning::Neutral })
            },
            None => None,
        }
    }

    /// The configuration that the engine was made for.
    pub fn config(&self) -> (c: &NipeConfig)
        ensures
            c@ == self@.config,
    {
        &self.config
    }

    /// The kind of host that the engine was made for.
    pub fn platform(&self) -> (p: Platform)
        ensures
            p == self@.platform,
    {
        self.platform
    }

    /// The user id of the caller, once it was asked for.
    pub fn caller(&self) -> (uid: Option<u32>)
        ensures
            uid == self@.caller,
    {
        self.caller
    }

    /// The account that the proxy runs under, once it was looked for.
    pub fn tor_user(&self) -> (a: Option<PrivilegeContext>)
        ensures
            a == self@.tor_user,
    {
        self.tor_user
    }

    /// The process that the engine holds.
    pub fn tor_process(&self) -> (h: Option<ProcessHandle>)
        ensures
            h == self@.tor_process,
    {
        self.tor_process
    }

    /// The operation in flight.
    pub fn operation(&self) -> (o: Operation)
        ensures
            o == self@.operation,
    {
        self.operation
    }

    /// Where the operation in flight stands.
    pub fn stage(&self) -> (s: Stage)
        ensures
            s == self@.stage,
    {
        self.stage
    }

    /// The warnings that were recorded.
    pub fn warnings(&self) -> (w: &Vec<String>)
        ensures
            texts(w@) == self@.warnings,
    {
        &self.warnings
    }
}

} // verus!
