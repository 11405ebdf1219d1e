//! The firewall capability and its three variants.
//!
//! A variant does not run anything. Each of its four operations is a plan,
//! whose steps the engine hands to the host in order.

pub mod linux;
pub mod macos;
pub mod windows;

use crate::platform::linux::{LinuxFirewall, LinuxFirewallView};
use crate::platform::macos::{MacOSFirewall, MacOSFirewallView};
use crate::platform::windows::WindowsFirewall;

use vstd::prelude::*;
use vstd::string::*;
use crate::error::ErrorKind;
use crate::host::{Command, CommandView, Effect, EffectView, Meaning, Scope};
use crate::plan::{lenient, Step, StepView, Tolerance, steps_view};
use crate::rules::{
    after_plan, all_tagged_truly, installs_nothing, lemma_command_words_differ, rules_in,
    same_rules, spawns_nothing, tagged_truly, touches, HostRules,
};
use crate::text::texts;

verus! {

/// The texts of a list of string slices.
pub open spec fn slice_texts(items: Seq<&str>) -> Seq<Seq<char>> {
    Seq::new(items.len(), |i: int| items[i]@)
}

/// Owned copies of a list of string slices.
pub fn strings(items: &[&str]) -> (r: Vec<String>)
    ensures
        texts(r@) == slice_texts(items@),
{
    let mut r: Vec<String> = Vec::new();
    let mut i: usize = 0;
    while i < items.len()
        invariant
            i <= items.len(),
            r@.len() == i,
            forall|k: int| 0 <= k < i ==> r@[k]@ == items@[k]@,
        decreases items.len() - i,
    {
        r.push(String::from_str(items[i]));
        i = i + 1;
    }
    assert(texts(r@) =~= slice_texts(items@));
    r
}

/// The step that runs `program` with `args`; a failure that counts is a
/// firewall error whose reason is `context` and then the command's diagnostic
/// output.
pub open spec fn run_step(
    program: Seq<char>,
    args: Seq<Seq<char>>,
    meaning: Meaning,
    tolerance: Tolerance,
    context: Seq<char>,
) -> StepView {
    StepView {
        effect: EffectView::Run { command: CommandView { program, args }, meaning },
        tolerance,
        kind: ErrorKind::FirewallError,
        context,
    }
}

/// Builds the step that runs `program` with `args`.
pub fn run(
    program: &str,
    args: &[&str],
    meaning: Meaning,
    tolerance: Tolerance,
    context: &str,
) -> (s: Step)
    ensures
        s@ == run_step(program@, slice_texts(args@), meaning, tolerance, context@),
{
    let command = Command { program: String::from_str(program), args: strings(args) };
    Step {
        effect: Effect::Run { command, meaning },
        tolerance,
        kind: ErrorKind::FirewallError,
        context: String::from_str(context),
    }
}

/// Moves the steps of `more` to the end of `plan`.
pub fn extend(plan: &mut Vec<Step>, more: Vec<Step>)
    ensures
        steps_view(final(plan)@) == steps_view(old(plan)@) + steps_view(more@),
{
    let ghost before = steps_view(plan@);
    let ghost added = steps_view(more@);
    let mut more = more;
    plan.append(&mut more);
    assert(steps_view(plan@) =~= before + added);
}

/// What every variant of the firewall offers.
///
/// The plans of the kill switch are held to the laws at the end: switching
/// off is lenient and installs nothing, and switching on and then off
/// restores a host on which the kill switch was off.
pub trait FirewallProvider {
    /// The plan that switches the kill switch on.
    spec fn kill_switch_on(&self) -> Seq<StepView>;

    /// The plan that switches the kill switch off.
    spec fn kill_switch_off(&self) -> Seq<StepView>;

    /// The plan that points the host's applications at the proxy on `port`.
    spec fn proxy_on(&self, port: u16) -> Seq<StepView>;

    /// The plan that takes the host's proxy setting back.
    spec fn proxy_off(&self) -> Seq<StepView>;

    /// The ordered rule set that lets only the proxy's own traffic and
    /// established connections leave the host.
    fn enable_kill_switch(&self) -> (plan: Vec<Step>)
        ensures
            steps_view(plan@) == self.kill_switch_on(),
    ;

    /// Removes the rules of the kill switch.
    fn disable_kill_switch(&self) -> (plan: Vec<Step>)
        ensures
            steps_view(plan@) == self.kill_switch_off(),
    ;

    /// Points the host's applications at the proxy on `port`, where the host
    /// has such a setting.
    fn enable_socks_proxy(&self, port: u16) -> (plan: Vec<Step>)
        ensures
            steps_view(plan@) == self.proxy_on(port),
    ;

    /// Takes the host's proxy setting back.
    fn disable_socks_proxy(&self) -> (plan: Vec<Step>)
        ensures
            steps_view(plan@) == self.proxy_off(),
    ;

    /// Switching off never fails because there was nothing to switch off: no
    /// step of the two plans is strict, and neither installs a rule.
    proof fn lemma_switching_off_is_lenient(&self)
        ensures
            lenient(self.kill_switch_off()),
            lenient(self.proxy_off()),
            installs_nothing(self.kill_switch_off()),
            installs_nothing(self.proxy_off()),
    ;

    /// The proxy setting is no rule of the packet filter: switching it on
    /// installs nothing.
    proof fn lemma_proxy_installs_nothing(&self, port: u16)
        ensures
            installs_nothing(self.proxy_on(port)),
    ;

    /// On a host where the scopes of the kill switch hold no rule, switching
    /// it on and then off leaves the rules in force as they were.
    proof fn lemma_on_then_off(&self, host: HostRules)
        requires
            forall|scope: Scope|
                touches(self.kill_switch_on(), scope) ==> rules_in(host, scope) == Seq::<
                    CommandView,
                >::empty(),
        ensures
            same_rules(
                after_plan(after_plan(host, self.kill_switch_on()), self.kill_switch_off()),
                host,
            ),
    ;
}

/// The kinds of host that the engine knows. The kind is chosen once, when the
/// engine is made, never at a call.
#[derive(Clone, Copy, Debug, PartialEq, Eq, Structural)]
pub enum Platform {
    Linux,
    MacOS,
    Windows,
}

/// The firewall of the host, whichever variant it is.
#[derive(Clone, Debug, PartialEq, Eq)]
pub enum Firewall {
    Linux(LinuxFirewall),
    MacOS(MacOSFirewall),
    Windows(WindowsFirewall),
}

/// The mathematical value of a [`Firewall`].
pub enum FirewallView {
    Linux(LinuxFirewallView),
    MacOS(MacOSFirewallView),
    Windows,
}

impl View for Firewall {
    type V = FirewallView;

    open spec fn view(&self) -> FirewallView {
        match self {
            Firewall::Linux(f) => FirewallView::Linux(f@),
            Firewall::MacOS(f) => FirewallView::MacOS(f@),
            Firewall::Windows(_) => FirewallView::Windows,
        }
    }
}

impl FirewallView {
    /// The kind of host that this firewall is for.
    pub open spec fn platform(self) -> Platform {
        match self {
            FirewallView::Linux(_) => Platform::Linux,
            FirewallView::MacOS(_) => Platform::MacOS,
            FirewallView::Windows => Platform::Windows,
        }
    }

    /// The plan that switches the kill switch on.
    pub open spec fn kill_switch_on(self) -> Seq<StepView> {
        match self {
            FirewallView::Linux(f) => f.kill_switch_on(),
            FirewallView::MacOS(f) => f.kill_switch_on(),
            FirewallView::Windows => windows::kill_switch_on(),
        }
    }

    /// The plan that switches the kill switch off.
    pub open spec fn kill_switch_off(self) -> Seq<StepView> {
        match self {
            FirewallView::Linux(f) => f.kill_switch_off(),
            FirewallView::MacOS(f) => f.kill_switch_off(),
            FirewallView::Windows => windows::kill_switch_off(),
        }
    }

    /// The plan that points the host's applications at the proxy on `port`.
    pub open spec fn proxy_on(self, port: u16) -> Seq<StepView> {
        match self {
            FirewallView::Linux(f) => Seq::empty(),
            FirewallView::MacOS(f) => f.proxy_on(port),
            FirewallView::Windows => windows::proxy_on(port),
        }
    }

    /// The plan that takes the host's proxy setting back.
    pub open spec fn proxy_off(self) -> Seq<StepView> {
        match self {
            FirewallView::Linux(f) => Seq::empty(),
            FirewallView::MacOS(f) => f.proxy_off(),
            FirewallView::Windows => windows::proxy_off(),
        }
    }

    /// Switching off is lenient and installs nothing, whatever the variant.
    pub proof fn lemma_switching_off_is_lenient(self)
        ensures
            lenient(self.kill_switch_off()),
            lenient(self.proxy_off()),
            installs_nothing(self.kill_switch_off()),
            installs_nothing(self.proxy_off()),
    {
        match self {
            FirewallView::MacOS(f) => {
                assert(f.kill_switch_off().len() == 2);
            },
            _ => {},
        }
    }

    /// No plan of the firewall spawns a process, whatever the variant.
    pub proof fn lemma_plans_spawn_nothing(self, port: u16)
        ensures
            spawns_nothing(self.kill_switch_on()),
            spawns_nothing(self.kill_switch_off()),
            spawns_nothing(self.proxy_on(port)),
            spawns_nothing(self.proxy_off()),
    {
        match self {
            FirewallView::MacOS(f) => {
                assert(f.kill_switch_off().len() == 2);
            },
            _ => {},
        }
    }

    /// The tags on the commands of the firewall say what the command lines
    /// do, whatever the variant: a command is tagged as installing rules
    /// exactly if it appends to a chain, loads the rules file or adds a rule.
    pub proof fn lemma_tags_are_true(self, port: u16)
        ensures
            all_tagged_truly(self.kill_switch_on()),
            all_tagged_truly(self.kill_switch_off()),
            all_tagged_truly(self.proxy_on(port)),
            all_tagged_truly(self.proxy_off()),
    {
        lemma_command_words_differ();
        match self {
            FirewallView::Linux(f) => {
                let on = f.kill_switch_on();
                assert(f.nat_rules().len() == 5);
                assert(f.filter_rules().len() == 4);
                assert forall|i: int| 0 <= i < on.len() implies tagged_truly(
                    (#[trigger] on[i]).effect,
                ) by {
                    if i >= 2 && i < 7 {
                        assert(on[i] == f.nat_rules()[i - 2]);
                    } else if i >= 7 {
                        assert(on[i] == f.filter_rules()[i - 7]);
                    }
                }
            },
            FirewallView::MacOS(f) => {
                assert(f.kill_switch_off().len() == 2);
                let off = f.proxy_off();
                assert forall|i: int| 0 <= i < off.len() implies tagged_truly(
                    (#[trigger] off[i]).effect,
                ) by {
                    if i >= 1 {
                        assert(off[i] == f.kill_switch_off()[i - 1]);
                    }
                }
            },
            FirewallView::Windows => {},
        }
    }

    /// The plans of the firewall are short, whatever the variant.
    pub proof fn lemma_plans_are_short(self, port: u16)
        ensures
            self.kill_switch_on().len() <= 11,
            self.kill_switch_off().len() <= 4,
            self.proxy_on(port).len() <= 2,
            self.proxy_off().len() <= 3,
    {
        match self {
            FirewallView::Linux(f) => {
                assert(f.nat_rules().len() == 5);
                assert(f.filter_rules().len() == 4);
            },
            FirewallView::MacOS(f) => {
                assert(f.kill_switch_off().len() == 2);
            },
            _ => {},
        }
    }

    /// The proxy setting installs no rule, whatever the variant.
    pub proof fn lemma_proxy_installs_nothing(self, port: u16)
        ensures
            installs_nothing(self.proxy_on(port)),
    {
    }

    /// For every variant: each operation of the kill switch is safe to repeat.
    /// Switching it on where it is on, or off where it is off, leaves the
    /// rules in force as the first time left them.
    pub proof fn lemma_repeating_changes_nothing(self, host: HostRules)
        ensures
            same_rules(
                after_plan(after_plan(host, self.kill_switch_on()), self.kill_switch_on()),
                after_plan(host, self.kill_switch_on()),
            ),
            same_rules(
                after_plan(after_plan(host, self.kill_switch_off()), self.kill_switch_off()),
                after_plan(host, self.kill_switch_off()),
            ),
    {
        match self {
            FirewallView::Linux(f) => f.lemma_repeating_changes_nothing(host),
            FirewallView::MacOS(f) => f.lemma_repeating_changes_nothing(host),
            FirewallView::Windows => windows::lemma_repeating_changes_nothing(host),
        }
    }

    /// For every variant: on a host where the scopes of the kill switch hold
    /// no rule, switching it on and then off leaves the rules in force as
    /// they were.
    pub proof fn lemma_on_then_off(self, host: HostRules)
        requires
            forall|scope: Scope|
                touches(self.kill_switch_on(), scope) ==> rules_in(host, scope) == Seq::<
                    CommandView,
                >::empty(),
        ensures
            same_rules(
                after_plan(after_plan(host, self.kill_switch_on()), self.kill_switch_off()),
                host,
            ),
    {
        match self {
            FirewallView::Linux(f) => f.lemma_on_then_off(host),
            FirewallView::MacOS(f) => f.lemma_on_then_off(host),
            FirewallView::Windows => windows::lemma_on_then_off(host),
        }
    }
}

impl Firewall {

    /// The kind of host that this firewall is for.
    pub fn platform(&self) -> (p: Platform)
        ensures
            p == self@.platform(),
    {
        match self {
            Firewall::Linux(_) => Platform::Linux,
            Firewall::MacOS(_) => Platform::MacOS,
            Firewall::Windows(_) => Platform::Windows,
        }
    }
}

impl FirewallProvider for Firewall {
    open spec fn kill_switch_on(&self) -> Seq<StepView> {
        self@.kill_switch_on()
    }

    open spec fn kill_switch_off(&self) -> Seq<StepView> {
        self@.kill_switch_off()
    }

    open spec fn proxy_on(&self, port: u16) -> Seq<StepView> {
        self@.proxy_on(port)
    }

    open spec fn proxy_off(&self) -> Seq<StepView> {
        self@.proxy_off()
    }

    fn enable_kill_switch(&self) -> (plan: Vec<Step>) {
        match self {
            Firewall::Linux(f) => f.enable_kill_switch(),
            Firewall::MacOS(f) => f.enable_kill_switch(),
            Firewall::Windows(f) => f.enable_kill_switch(),
        }
    }

    fn disable_kill_switch(&self) -> (plan: Vec<Step>) {
        match self {
            Firewall::Linux(f) => f.disable_kill_switch(),
            Firewall::MacOS(f) => f.disable_kill_switch(),
            Firewall::Windows(f) => f.disable_kill_switch(),
        }
    }

    fn enable_socks_proxy(&self, port: u16) -> (plan: Vec<Step>) {
        match self {
            Firewall::Linux(f) => f.enable_socks_proxy(port),
            Firewall::MacOS(f) => f.enable_socks_proxy(port),
            Firewall::Windows(f) => f.enable_socks_proxy(port),
        }
    }

    fn disable_socks_proxy(&self) -> (plan: Vec<Step>) {
        match self {
            Firewall::Linux(f) => f.disable_socks_proxy(),
            Firewall::MacOS(f) => f.disable_socks_proxy(),
            Firewall::Windows(f) => f.disable_socks_proxy(),
        }
    }

    proof fn lemma_switching_off_is_lenient(&self) {
        self@.lemma_switching_off_is_lenient();
    }

    proof fn lemma_proxy_installs_nothing(&self, port: u16) {
        self@.lemma_proxy_installs_nothing(port);
    }

    proof fn lemma_on_then_off(&self, host: HostRules) {
        self@.lemma_on_then_off(host);
    }
}

} // verus!
