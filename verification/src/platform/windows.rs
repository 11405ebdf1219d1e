//! The rule-engine variant: netsh.
//!
//! The kill switch is a single rule that blocks all outbound traffic, and the
//! proxy setting is the global WinHTTP proxy, the closest thing the host has.

use vstd::prelude::*;
use vstd::string::*;
use crate::error::NipeError;
use crate::host::{CommandView, Meaning, Scope};
use crate::plan::{steps_view, Step, StepView, Tolerance};
use crate::platform::{run, run_step, slice_texts, FirewallProvider};
use crate::rules::{
    after_plan, cleared_by, lemma_on_then_off_restores, lemma_twice_is_once, resets,
    resets_first, rules_in, same_rules, scope_of, touches, HostRules,
};
use crate::text::{decimal, decimal_string};

verus! {

/// The firewall of a Windows host. It needs nothing of the host to be known.
#[derive(Clone, Debug, PartialEq, Eq)]
pub struct WindowsFirewall;

/// One netsh call. Its error, if one counts, says so before the diagnostic
/// output.
pub open spec fn netsh(args: Seq<Seq<char>>, meaning: Meaning, tolerance: Tolerance) -> StepView {
    run_step("netsh"@, args, meaning, tolerance, "netsh command failed: "@)
}

/// Deleting every rule that carries the kill switch's name.
pub open spec fn delete_rule(tolerance: Tolerance) -> StepView {
    netsh(
        seq!["advfirewall"@, "firewall"@, "delete"@, "rule"@, "name=Nipe Kill Switch"@],
        Meaning::Clear(Scope::NamedRule),
        tolerance,
    )
}

/// Adding the rule that blocks all outbound traffic.
pub open spec fn add_block_rule() -> StepView {
    netsh(
        seq![
            "advfirewall"@,
            "firewall"@,
            "add"@,
            "rule"@,
            "name=Nipe Kill Switch"@,
            "dir=out"@,
            "action=block"@,
            "enable=yes"@,
            "profile=any"@,
        ],
        Meaning::Append(Scope::NamedRule),
        Tolerance::Strict,
    )
}

/// The address of the local proxy on `port`.
pub open spec fn proxy_address(port: u16) -> Seq<char> {
    "127.0.0.1:"@ + decimal(port as nat)
}

/// Any rule of the same name goes first, whether there was one or not; then
/// the blocking rule is added.
pub open spec fn kill_switch_on() -> Seq<StepView> {
    seq![delete_rule(Tolerance::Everything), add_block_rule()]
}

/// The rules of the kill switch's name are deleted.
pub open spec fn kill_switch_off() -> Seq<StepView> {
    seq![delete_rule(Tolerance::ExitStatus)]
}

/// The global WinHTTP proxy is set to the local proxy.
pub open spec fn proxy_on(port: u16) -> Seq<StepView> {
    seq![
        netsh(
            seq!["winhttp"@, "set"@, "proxy"@, proxy_address(port)],
            Meaning::Neutral,
            Tolerance::Strict,
        ),
    ]
}

/// The global WinHTTP proxy is reset.
pub open spec fn proxy_off() -> Seq<StepView> {
    seq![netsh(seq!["winhttp"@, "reset"@, "proxy"@], Meaning::Neutral, Tolerance::ExitStatus)]
}

/// On a host without a rule of the kill switch's name, switching the kill
/// switch on and then off leaves the rules in force as they were.
pub proof fn lemma_on_then_off(host: HostRules)
    requires
        forall|scope: Scope|
            touches(kill_switch_on(), scope) ==> rules_in(host, scope) == Seq::<
                CommandView,
            >::empty(),
    ensures
        same_rules(after_plan(after_plan(host, kill_switch_on()), kill_switch_off()), host),
{
    let on = kill_switch_on();
    let off = kill_switch_off();
    assert(cleared_by(off[0].effect) == Some(Scope::NamedRule));
    assert(scope_of(on[0].effect) == Some(Scope::NamedRule));
    lemma_on_then_off_restores(host, on, off, set![Scope::NamedRule]);
}

/// Each of the two plans of the kill switch begins by deleting the rules of
/// its name: to run it twice is to run it once.
pub proof fn lemma_repeating_changes_nothing(host: HostRules)
    ensures
        same_rules(
            after_plan(after_plan(host, kill_switch_on()), kill_switch_on()),
            after_plan(host, kill_switch_on()),
        ),
        same_rules(
            after_plan(after_plan(host, kill_switch_off()), kill_switch_off()),
            after_plan(host, kill_switch_off()),
        ),
{
    let on = kill_switch_on();
    let off = kill_switch_off();
    assert(resets_first(on, Scope::NamedRule)) by {
        assert(resets(on[0].effect, Scope::NamedRule));
    }
    assert(resets_first(off, Scope::NamedRule)) by {
        assert(resets(off[0].effect, Scope::NamedRule));
    }
    lemma_twice_is_once(host, on, set![Scope::NamedRule]);
    lemma_twice_is_once(host, off, set![Scope::NamedRule]);
}

impl WindowsFirewall {
    /// The firewall of this host.
    pub fn new() -> (r: Result<WindowsFirewall, NipeError>)
        ensures
            r is Ok,
    {
        Ok(WindowsFirewall)
    }

    /// The step that runs netsh with `args`.
    pub fn run_netsh(args: &[&str], meaning: Meaning, tolerance: Tolerance) -> (s: Step)
        ensures
            s@ == netsh(slice_texts(args@), meaning, tolerance),
    {
        run("netsh", args, meaning, tolerance, "netsh command failed: ")
    }

    fn delete_rule(tolerance: Tolerance) -> (s: Step)
        ensures
            s@ == delete_rule(tolerance),
    {
        let s = Self::run_netsh(
            &["advfirewall", "firewall", "delete", "rule", "name=Nipe Kill Switch"],
            Meaning::Clear(Scope::NamedRule),
            tolerance,
        );
        assert(s@.effect->Run_command.args =~= delete_rule(tolerance).effect->Run_command.args);
        s
    }
}

impl FirewallProvider for WindowsFirewall {
    open spec fn kill_switch_on(&self) -> Seq<StepView> {
        kill_switch_on()
    }

    open spec fn kill_switch_off(&self) -> Seq<StepView> {
        kill_switch_off()
    }

    open spec fn proxy_on(&self, port: u16) -> Seq<StepView> {
        proxy_on(port)
    }

    open spec fn proxy_off(&self) -> Seq<StepView> {
        proxy_off()
    }

    fn enable_kill_switch(&self) -> (plan: Vec<Step>) {
        let mut plan: Vec<Step> = Vec::new();
        plan.push(Self::delete_rule(Tolerance::Everything));
        let add = Self::run_netsh(
            &[
                "advfirewall",
                "firewall",
                "add",
                "rule",
                "name=Nipe Kill Switch",
                "dir=out",
                "action=block",
                "enable=yes",
                "profile=any",
            ],
            Meaning::Append(Scope::NamedRule),
            Tolerance::Strict,
        );
        assert(add@.effect->Run_command.args =~= add_block_rule().effect->Run_command.args);
        plan.push(add);
        assert(steps_view(plan@) =~= kill_switch_on());
        plan
    }

    fn disable_kill_switch(&self) -> (plan: Vec<Step>) {
        let mut plan: Vec<Step> = Vec::new();
        plan.push(Self::delete_rule(Tolerance::ExitStatus));
        assert(steps_view(plan@) =~= kill_switch_off());
        plan
    }

    fn enable_socks_proxy(&self, port: u16) -> (plan: Vec<Step>) {
        let address = String::from_str("127.0.0.1:").concat(decimal_string(port as u64).as_str());
        let set = Self::run_netsh(
            &["winhttp", "set", "proxy", address.as_str()],
            Meaning::Neutral,
            Tolerance::Strict,
        );
        assert(set@.effect->Run_command.args =~= seq![
            "winhttp"@,
            "set"@,
            "proxy"@,
            proxy_address(port),
        ]);
        let mut plan: Vec<Step> = Vec::new();
        plan.push(set);
        assert(steps_view(plan@) =~= proxy_on(port));
        plan
    }

    fn disable_socks_proxy(&self) -> (plan: Vec<Step>) {
        let reset = Self::run_netsh(
            &["winhttp", "reset", "proxy"],
            Meaning::Neutral,
            Tolerance::ExitStatus,
        );
        assert(reset@.effect->Run_command.args =~= seq!["winhttp"@, "reset"@, "proxy"@]);
        let mut plan: Vec<Step> = Vec::new();
        plan.push(reset);
        assert(steps_view(plan@) =~= proxy_off());
        plan
    }

    proof fn lemma_switching_off_is_lenient(&self) {
    }

    proof fn lemma_proxy_installs_nothing(&self, port: u16) {
    }

    proof fn lemma_on_then_off(&self, host: HostRules) {
        lemma_on_then_off(host);
    }
}

} // verus!
