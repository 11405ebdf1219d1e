//! The packet-filter-table variant: iptables.

use vstd::prelude::*;
use vstd::string::*;
use crate::error::NipeError;
use crate::host::{CommandView, Meaning, Scope};
use crate::plan::{steps_view, Step, StepView, Tolerance};
use crate::platform::{extend, run, run_step, slice_texts, FirewallProvider};
use crate::rules::{
    after_plan, cleared_by, lemma_on_then_off_restores, lemma_twice_is_once, resets,
    resets_first, rules_in, same_rules, scope_of, touches, HostRules,
};
use crate::text::{decimal, decimal_string};

verus! {

/// The kill switch as iptables rules in the output chains of the nat and the
/// filter table. The host has no proxy setting of its own.
#[derive(Clone, Debug, PartialEq, Eq)]
pub struct LinuxFirewall {
    /// The account whose traffic may leave: a name or a numeric user id.
    pub tor_user: String,
    /// The port that DNS queries are redirected to.
    pub dns_port: u16,
    /// The port that all other TCP traffic is redirected to.
    pub trans_port: u16,
}

/// One iptables call. Its error, if one counts, is the bare diagnostic
/// output.
pub open spec fn iptables(args: Seq<Seq<char>>, meaning: Meaning, tolerance: Tolerance) -> StepView {
    run_step("iptables"@, args, meaning, tolerance, Seq::empty())
}

fn iptables_step(args: &[&str], meaning: Meaning, tolerance: Tolerance) -> (s: Step)
    ensures
        s@ == iptables(slice_texts(args@), meaning, tolerance),
{
    proof {
        reveal_strlit("");
    }
    let s = run("iptables", args, meaning, tolerance, "");
    assert(""@ =~= Seq::<char>::empty());
    s
}

/// Flushing the output chain of a table.
pub open spec fn flush(table: Seq<char>, scope: Scope, tolerance: Tolerance) -> StepView {
    iptables(seq!["-t"@, table, "-F"@, "OUTPUT"@], Meaning::Clear(scope), tolerance)
}

/// Deleting the user-defined chains of a table.
pub open spec fn delete_chains(table: Seq<char>) -> StepView {
    iptables(seq!["-t"@, table, "-X"@], Meaning::Neutral, Tolerance::ExitStatus)
}

/// Appending one rule to the output chain of the nat table.
pub open spec fn nat_rule(rule: Seq<Seq<char>>) -> StepView {
    iptables(
        seq!["-t"@, "nat"@, "-A"@, "OUTPUT"@] + rule,
        Meaning::Append(Scope::NatOutput),
        Tolerance::Strict,
    )
}

/// Appending one rule to the output chain of the filter table.
pub open spec fn filter_rule(rule: Seq<Seq<char>>) -> StepView {
    iptables(
        seq!["-t"@, "filter"@, "-A"@, "OUTPUT"@] + rule,
        Meaning::Append(Scope::FilterOutput),
        Tolerance::Strict,
    )
}

/// The mathematical value of a [`LinuxFirewall`].
pub struct LinuxFirewallView {
    pub tor_user: Seq<char>,
    pub dns_port: u16,
    pub trans_port: u16,
}

impl View for LinuxFirewall {
    type V = LinuxFirewallView;

    open spec fn view(&self) -> LinuxFirewallView {
        LinuxFirewallView {
            tor_user: self.tor_user@,
            dns_port: self.dns_port,
            trans_port: self.trans_port,
        }
    }
}

impl LinuxFirewallView {
    /// The rules of the nat table, first match wins: established connections
    /// and the proxy's own traffic pass untouched, DNS goes to the DNS port,
    /// all other TCP to the transparent port.
    pub open spec fn nat_rules(self) -> Seq<StepView> {
        seq![
            nat_rule(seq!["-m"@, "state"@, "--state"@, "ESTABLISHED"@, "-j"@, "RETURN"@]),
            nat_rule(seq!["-m"@, "owner"@, "--uid-owner"@, self.tor_user, "-j"@, "RETURN"@]),
            nat_rule(
                seq![
                    "-p"@,
                    "udp"@,
                    "--dport"@,
                    "53"@,
                    "-j"@,
                    "REDIRECT"@,
                    "--to-ports"@,
                    decimal(self.dns_port as nat),
                ],
            ),
            nat_rule(
                seq![
                    "-p"@,
                    "tcp"@,
                    "--dport"@,
                    "53"@,
                    "-j"@,
                    "REDIRECT"@,
                    "--to-ports"@,
                    decimal(self.dns_port as nat),
                ],
            ),
            nat_rule(
                seq!["-p"@, "tcp"@, "-j"@, "REDIRECT"@, "--to-ports"@, decimal(self.trans_port as nat)],
            ),
        ]
    }

    /// The rules of the filter table, first match wins: established
    /// connections and the proxy's own traffic are accepted, what is left of
    /// UDP and ICMP is rejected.
    pub open spec fn filter_rules(self) -> Seq<StepView> {
        seq![
            filter_rule(seq!["-m"@, "state"@, "--state"@, "ESTABLISHED"@, "-j"@, "ACCEPT"@]),
            filter_rule(seq!["-m"@, "owner"@, "--uid-owner"@, self.tor_user, "-j"@, "ACCEPT"@]),
            filter_rule(seq!["-p"@, "udp"@, "-j"@, "REJECT"@]),
            filter_rule(seq!["-p"@, "icmp"@, "-j"@, "REJECT"@]),
        ]
    }

    /// Both output chains are flushed, then the rules are appended, the nat
    /// table first.
    pub open spec fn kill_switch_on(self) -> Seq<StepView> {
        seq![
            flush("nat"@, Scope::NatOutput, Tolerance::Strict),
            flush("filter"@, Scope::FilterOutput, Tolerance::Strict),
        ] + self.nat_rules() + self.filter_rules()
    }

    /// Both output chains are flushed and the user-defined chains deleted.
    pub open spec fn kill_switch_off(self) -> Seq<StepView> {
        seq![
            flush("nat"@, Scope::NatOutput, Tolerance::ExitStatus),
            flush("filter"@, Scope::FilterOutput, Tolerance::ExitStatus),
            delete_chains("nat"@),
            delete_chains("filter"@),
        ]
    }

    /// On a host where both output chains hold no rule, switching the kill
    /// switch on and then off leaves the rules in force as they were.
    pub proof fn lemma_on_then_off(self, host: HostRules)
        requires
            forall|scope: Scope|
                touches(self.kill_switch_on(), scope) ==> rules_in(host, scope) == Seq::<
                    CommandView,
                >::empty(),
        ensures
            same_rules(
                after_plan(after_plan(host, self.kill_switch_on()), self.kill_switch_off()),
                host,
            ),
    {
        let on = self.kill_switch_on();
        let off = self.kill_switch_off();
        assert(cleared_by(off[0].effect) == Some(Scope::NatOutput));
        assert(cleared_by(off[1].effect) == Some(Scope::FilterOutput));
        assert(scope_of(on[0].effect) == Some(Scope::NatOutput));
        assert(scope_of(on[1].effect) == Some(Scope::FilterOutput));
        lemma_on_then_off_restores(host, on, off, set![Scope::NatOutput, Scope::FilterOutput]);
    }

    /// Each of the two plans of the kill switch sets both output chains
    /// afresh before it does anything else to them: to run it twice is to
    /// run it once.
    pub proof fn lemma_repeating_changes_nothing(self, host: HostRules)
        ensures
            same_rules(
                after_plan(after_plan(host, self.kill_switch_on()), self.kill_switch_on()),
                after_plan(host, self.kill_switch_on()),
            ),
            same_rules(
                after_plan(after_plan(host, self.kill_switch_off()), self.kill_switch_off()),
                after_plan(host, self.kill_switch_off()),
            ),
    {
        let on = self.kill_switch_on();
        let off = self.kill_switch_off();
        let scopes = set![Scope::NatOutput, Scope::FilterOutput];
        assert(resets_first(on, Scope::NatOutput)) by {
            assert(resets(on[0].effect, Scope::NatOutput));
        }
        assert(resets_first(on, Scope::FilterOutput)) by {
            assert(resets(on[1].effect, Scope::FilterOutput));
            assert(scope_of(on[0].effect) == Some(Scope::NatOutput));
        }
        assert(resets_first(off, Scope::NatOutput)) by {
            assert(resets(off[0].effect, Scope::NatOutput));
        }
        assert(resets_first(off, Scope::FilterOutput)) by {
            assert(resets(off[1].effect, Scope::FilterOutput));
            assert(scope_of(off[0].effect) == Some(Scope::NatOutput));
        }
        lemma_twice_is_once(host, on, scopes);
        lemma_twice_is_once(host, off, scopes);
    }
}

impl LinuxFirewall {
    /// The firewall for the default account and ports of a Debian host.
    pub fn new() -> (r: Result<LinuxFirewall, NipeError>)
        ensures
            r is Ok,
            r->Ok_0.tor_user@ == "debian-tor"@,
            r->Ok_0.dns_port == 9061,
            r->Ok_0.trans_port == 9050,
    {
        Ok(LinuxFirewall { tor_user: String::from_str("debian-tor"), dns_port: 9061, trans_port: 9050 })
    }

    /// The firewall that lets the traffic of `account` out and redirects to
    /// the given ports.
    pub fn for_account(account: &str, dns_port: u16, trans_port: u16) -> (r: LinuxFirewall)
        ensures
            r.tor_user@ == account@,
            r.dns_port == dns_port,
            r.trans_port == trans_port,
    {
        LinuxFirewall { tor_user: String::from_str(account), dns_port, trans_port }
    }

    /// The steps that append the rules of the nat table.
    pub fn setup_nat_rules(&self) -> (plan: Vec<Step>)
        ensures
            steps_view(plan@) == self@.nat_rules(),
    {
        let dns = decimal_string(self.dns_port as u64);
        let trans = decimal_string(self.trans_port as u64);
        let append = Meaning::Append(Scope::NatOutput);
        let mut plan: Vec<Step> = Vec::new();
        plan.push(
            iptables_step(&["-t", "nat", "-A", "OUTPUT", "-m", "state", "--state", "ESTABLISHED", "-j", "RETURN"],
                append,
                Tolerance::Strict,
            ),
        );
        plan.push(
            iptables_step(&[
                    "-t",
                    "nat",
                    "-A",
                    "OUTPUT",
                    "-m",
                    "owner",
                    "--uid-owner",
                    self.tor_user.as_str(),
                    "-j",
                    "RETURN",
                ],
                append,
                Tolerance::Strict,
            ),
        );
        plan.push(
            iptables_step(&[
                    "-t",
                    "nat",
                    "-A",
                    "OUTPUT",
                    "-p",
                    "udp",
                    "--dport",
                    "53",
                    "-j",
                    "REDIRECT",
                    "--to-ports",
                    dns.as_str(),
                ],
                append,
                Tolerance::Strict,
            ),
        );
        plan.push(
            iptables_step(&[
                    "-t",
                    "nat",
                    "-A",
                    "OUTPUT",
                    "-p",
                    "tcp",
                    "--dport",
                    "53",
                    "-j",
                    "REDIRECT",
                    "--to-ports",
                    dns.as_str(),
                ],
                append,
                Tolerance::Strict,
            ),
        );
        plan.push(
            iptables_step(&["-t", "nat", "-A", "OUTPUT", "-p", "tcp", "-j", "REDIRECT", "--to-ports", trans.as_str()],
                append,
                Tolerance::Strict,
            ),
        );
        proof {
            let want = self@.nat_rules();
            let got = steps_view(plan@);
            assert(got.len() == want.len());
            assert(got[0].effect->Run_command.args =~= want[0].effect->Run_command.args);
            assert(got[1].effect->Run_command.args =~= want[1].effect->Run_command.args);
            assert(got[2].effect->Run_command.args =~= want[2].effect->Run_command.args);
            assert(got[3].effect->Run_command.args =~= want[3].effect->Run_command.args);
            assert(got[4].effect->Run_command.args =~= want[4].effect->Run_command.args);
            assert(got =~= want);
        }
        plan
    }

    /// The steps that append the rules of the filter table.
    pub fn setup_filter_rules(&self) -> (plan: Vec<Step>)
        ensures
            steps_view(plan@) == self@.filter_rules(),
    {
        let append = Meaning::Append(Scope::FilterOutput);
        let mut plan: Vec<Step> = Vec::new();
        plan.push(
            iptables_step(&["-t", "filter", "-A", "OUTPUT", "-m", "state", "--state", "ESTABLISHED", "-j", "ACCEPT"],
                append,
                Tolerance::Strict,
            ),
        );
        plan.push(
            iptables_step(&[
                    "-t",
                    "filter",
                    "-A",
                    "OUTPUT",
                    "-m",
                    "owner",
                    "--uid-owner",
                    self.tor_user.as_str(),
                    "-j",
                    "ACCEPT",
                ],
                append,
                Tolerance::Strict,
            ),
        );
        plan.push(
            iptables_step(&["-t", "filter", "-A", "OUTPUT", "-p", "udp", "-j", "REJECT"],
                append,
                Tolerance::Strict,
            ),
        );
        plan.push(
            iptables_step(&["-t", "filter", "-A", "OUTPUT", "-p", "icmp", "-j", "REJECT"],
                append,
                Tolerance::Strict,
            ),
        );
        proof {
            let want = self@.filter_rules();
            let got = steps_view(plan@);
            assert(got.len() == want.len());
            assert(got[0].effect->Run_command.args =~= want[0].effect->Run_command.args);
            assert(got[1].effect->Run_command.args =~= want[1].effect->Run_command.args);
            assert(got[2].effect->Run_command.args =~= want[2].effect->Run_command.args);
            assert(got[3].effect->Run_command.args =~= want[3].effect->Run_command.args);
            assert(got =~= want);
        }
        plan
    }
}

/// The steps that flush the output chains of both tables.
fn flush_both(tolerance: Tolerance) -> (plan: Vec<Step>)
    ensures
        steps_view(plan@) == seq![
            flush("nat"@, Scope::NatOutput, tolerance),
            flush("filter"@, Scope::FilterOutput, tolerance),
        ],
{
    let mut plan: Vec<Step> = Vec::new();
    plan.push(
        iptables_step(&["-t", "nat", "-F", "OUTPUT"], Meaning::Clear(Scope::NatOutput), tolerance),
    );
    plan.push(
        iptables_step(&["-t", "filter", "-F", "OUTPUT"],
            Meaning::Clear(Scope::FilterOutput),
            tolerance,
        ),
    );
    proof {
        let got = steps_view(plan@);
        assert(got[0].effect->Run_command.args =~= seq!["-t"@, "nat"@, "-F"@, "OUTPUT"@]);
        assert(got[1].effect->Run_command.args =~= seq!["-t"@, "filter"@, "-F"@, "OUTPUT"@]);
        assert(got =~= seq![
            flush("nat"@, Scope::NatOutput, tolerance),
            flush("filter"@, Scope::FilterOutput, tolerance),
        ]);
    }
    plan
}

impl FirewallProvider for LinuxFirewall {
    open spec fn kill_switch_on(&self) -> Seq<StepView> {
        self@.kill_switch_on()
    }

    open spec fn kill_switch_off(&self) -> Seq<StepView> {
        self@.kill_switch_off()
    }

    /// The host has no proxy setting: nothing is done.
    open spec fn proxy_on(&self, port: u16) -> Seq<StepView> {
        Seq::empty()
    }

    /// The host has no proxy setting: nothing is done.
    open spec fn proxy_off(&self) -> Seq<StepView> {
        Seq::empty()
    }

    fn enable_kill_switch(&self) -> (plan: Vec<Step>) {
        let mut plan = flush_both(Tolerance::Strict);
        extend(&mut plan, self.setup_nat_rules());
        extend(&mut plan, self.setup_filter_rules());
        plan
    }

    fn disable_kill_switch(&self) -> (plan: Vec<Step>) {
        let mut plan = flush_both(Tolerance::ExitStatus);
        let ghost flushes = steps_view(plan@);
        assert(flushes =~= seq![
            flush("nat"@, Scope::NatOutput, Tolerance::ExitStatus),
            flush("filter"@, Scope::FilterOutput, Tolerance::ExitStatus),
        ]);
        assert(flushes.len() == 2);
        assert(plan@.len() == 2);
        assert(flushes[0] == plan@[0]@ && flushes[1] == plan@[1]@);
        plan.push(iptables_step(&["-t", "nat", "-X"], Meaning::Neutral, Tolerance::ExitStatus));
        plan.push(iptables_step(&["-t", "filter", "-X"], Meaning::Neutral, Tolerance::ExitStatus));
        proof {
            let got = steps_view(plan@);
            assert(got[2].effect->Run_command.args =~= seq!["-t"@, "nat"@, "-X"@]);
            assert(got[3].effect->Run_command.args =~= seq!["-t"@, "filter"@, "-X"@]);
            assert(got =~= self.kill_switch_off());
        }
        plan
    }

    fn enable_socks_proxy(&self, port: u16) -> (plan: Vec<Step>) {
        let plan: Vec<Step> = Vec::new();
        assert(steps_view(plan@) =~= Seq::<StepView>::empty());
        plan
    }

    fn disable_socks_proxy(&self) -> (plan: Vec<Step>) {
        let plan: Vec<Step> = Vec::new();
        assert(steps_view(plan@) =~= Seq::<StepView>::empty());
        plan
    }

    proof fn lemma_switching_off_is_lenient(&self) {
    }

    proof fn lemma_proxy_installs_nothing(&self, port: u16) {
    }

    proof fn lemma_on_then_off(&self, host: HostRules) {
        self@.lemma_on_then_off(host);
    }
}

} // verus!
