//! The BSD-packet-filter variant: pfctl and networksetup.
//!
//! The rules are scoped to the interface of the default route, which is read
//! from the output of `route get default`; the proxy setting belongs to the
//! network service of that interface, read from the list of hardware ports.
//! The packet filter redirects what comes in on an interface only, so what is
//! to go to the proxy is first routed to the loopback and redirected there.

use vstd::prelude::*;
use vstd::string::*;
use crate::config::option_text;
use crate::error::{ErrorKind, NipeError, NipeErrorView};
use crate::host::{Command, CommandView, Effect, EffectView, Meaning, Scope};
use crate::plan::{steps_view, Step, StepView, Tolerance};
use crate::platform::{extend, run, run_step, strings, FirewallProvider};
use crate::rules::{
    after_plan, cleared_by, lemma_on_then_off_restores, lemma_twice_is_once, resets,
    resets_first, rules_in, same_rules, scope_of, touches, HostRules,
};
use crate::text::{
    contains, contains_in, decimal, decimal_string, last_word, last_word_in, lines_of,
    range_texts, second_field, second_field_in, slice_string, split_lines, to_chars, trim_in,
    trimmed,
};

verus! {

/// The firewall of a macOS host.
#[derive(Clone, Debug, PartialEq, Eq)]
pub struct MacOSFirewall {
    /// The interface of the default route.
    pub interface: String,
    /// The network service of that interface, if the list of services could
    /// be had.
    pub service: Option<String>,
    /// The account whose traffic may leave: a name or a numeric user id.
    pub tor_user: String,
    /// The port that DNS queries are redirected to.
    pub dns_port: u16,
    /// The port that all other TCP traffic is redirected to.
    pub trans_port: u16,
}

/// Where the rules of the kill switch are written before they are loaded.
pub open spec fn rules_path() -> Seq<char> {
    "/tmp/nipe_pf.conf"@
}

/// The head of the rules: the interface and the account by name, and the
/// policy of dropping what is blocked.
pub open spec fn pf_head(interface: Seq<char>, tor_user: Seq<char>) -> Seq<char> {
    "\n# Nipe Kill Switch Rules\next_if = \""@ + interface + "\"\ntor_user = \""@ + tor_user
        + "\"\n\n# Options\nset block-policy drop\n"@
}

/// The redirections on the loopback: DNS to the DNS port, all other TCP to
/// the transparent port.
pub open spec fn pf_redirects(dns_port: u16, trans_port: u16) -> Seq<char> {
    "\n# What is routed to the loopback is handed to the proxy\nrdr pass on lo0 inet proto { udp, tcp } from any to any port 53 -> 127.0.0.1 port "@
        + decimal(dns_port as nat)
        + "\nrdr pass on lo0 inet proto tcp from any to any -> 127.0.0.1 port "@ + decimal(
        trans_port as nat,
    ) + "\n"@
}

/// The filter on the interface, first match wins: established connections
/// pass, the account's traffic passes, DNS and then all other TCP is routed
/// to the loopback, where it is redirected; everything else is dropped, and
/// IPv6, which no rule before lets pass, is blocked on every interface.
pub open spec fn pf_filter() -> Seq<char> {
    "\n# Established connections stay alive\npass out quick on $ext_if inet proto tcp from any to any flags A/A no state\n\n# The proxy's own traffic may leave\npass out quick on $ext_if inet proto { tcp, udp } from any to any user $tor_user keep state\n\n# DNS goes to the proxy\npass out quick on $ext_if route-to lo0 inet proto { udp, tcp } from any to any port 53 keep state\n\n# All other TCP goes to the proxy\npass out quick on $ext_if route-to lo0 inet proto tcp from any to any keep state\n\n# Everything else is dropped\nblock drop out quick on $ext_if all\n\n# IPv6 is blocked everywhere\nblock drop quick inet6 all\n"@
}

/// The interface that the lines of a route query name: the last word of the
/// first line that holds `interface:`.
pub open spec fn interface_in(lines: Seq<Seq<char>>) -> Option<Seq<char>>
    decreases lines.len(),
{
    if lines.len() == 0 {
        None
    } else if contains(lines[0], "interface:"@) && last_word(lines[0]) is Some {
        last_word(lines[0])
    } else {
        interface_in(lines.drop_first())
    }
}

/// The service that a list of hardware ports names for `interface`, looking
/// from line `from` on: the line before the first line that holds the
/// interface, as far as it has something after a colon, gives the name, which
/// is what stands after the colon up to the next one, without the white space
/// around it.
pub open spec fn service_in(lines: Seq<Seq<char>>, interface: Seq<char>, from: int) -> Option<
    Seq<char>,
>
    decreases lines.len() - from,
{
    if from >= lines.len() {
        None
    } else if from > 0 && contains(lines[from], interface) && second_field(lines[from - 1], ':')
        is Some {
        Some(trimmed(second_field(lines[from - 1], ':').unwrap()))
    } else {
        service_in(lines, interface, from + 1)
    }
}

/// The service that the proxy setting is made for when none is known.
pub open spec fn default_service() -> Seq<char> {
    "Wi-Fi"@
}

/// The service of `interface` according to a list of hardware ports.
pub open spec fn service_of(interface: Seq<char>, listing: Seq<char>) -> Seq<char> {
    match service_in(lines_of(listing), interface, 0) {
        Some(name) => name,
        None => default_service(),
    }
}

/// One networksetup call.
pub open spec fn networksetup(args: Seq<Seq<char>>, tolerance: Tolerance, context: Seq<char>) -> StepView {
    run_step("networksetup"@, args, Meaning::Neutral, tolerance, context)
}

/// The mathematical value of a [`MacOSFirewall`].
pub struct MacOSFirewallView {
    pub interface: Seq<char>,
    pub service: Option<Seq<char>>,
    pub tor_user: Seq<char>,
    pub dns_port: u16,
    pub trans_port: u16,
}

impl View for MacOSFirewall {
    type V = MacOSFirewallView;

    open spec fn view(&self) -> MacOSFirewallView {
        MacOSFirewallView {
            interface: self.interface@,
            service: option_text(self.service),
            tor_user: self.tor_user@,
            dns_port: self.dns_port,
            trans_port: self.trans_port,
        }
    }
}

impl MacOSFirewallView {
    /// The service that the proxy setting is made for.
    pub open spec fn service_name(self) -> Seq<char> {
        match self.service {
            Some(name) => name,
            None => default_service(),
        }
    }

    /// The rules of the kill switch: the head, the redirections, the filter.
    pub open spec fn pf_rules(self) -> Seq<char> {
        pf_head(self.interface, self.tor_user) + pf_redirects(self.dns_port, self.trans_port)
            + pf_filter()
    }

    /// The rules are written and loaded, and the packet filter is enabled. A
    /// load that fails is a failure; a packet filter that was enabled already
    /// says so by its exit status and is let pass.
    pub open spec fn kill_switch_on(self) -> Seq<StepView> {
        seq![
            StepView {
                effect: EffectView::WriteFile { path: rules_path(), content: self.pf_rules() },
                tolerance: Tolerance::Strict,
                kind: ErrorKind::IoError,
                context: Seq::empty(),
            },
            run_step(
                "pfctl"@,
                seq!["-f"@, rules_path()],
                Meaning::Replace(Scope::PacketFilter),
                Tolerance::Strict,
                "Failed to enable PF: "@,
            ),
            run_step(
                "pfctl"@,
                seq!["-e"@],
                Meaning::Neutral,
                Tolerance::ExitStatus,
                "Failed to enable PF: "@,
            ),
        ]
    }

    /// Disabling the packet filter and removing the rules file.
    pub open spec fn kill_switch_off(self) -> Seq<StepView> {
        seq![
            run_step(
                "pfctl"@,
                seq!["-d"@],
                Meaning::Clear(Scope::PacketFilter),
                Tolerance::ExitStatus,
                "Failed to disable PF: "@,
            ),
            StepView {
                effect: EffectView::RemoveFile { path: rules_path() },
                tolerance: Tolerance::Everything,
                kind: ErrorKind::IoError,
                context: Seq::empty(),
            },
        ]
    }

    /// The proxy is set for the service and then switched on.
    pub open spec fn proxy_on(self, port: u16) -> Seq<StepView> {
        seq![
            networksetup(
                seq![
                    "-setsocksfirewallproxy"@,
                    self.service_name(),
                    "127.0.0.1"@,
                    decimal(port as nat),
                ],
                Tolerance::Strict,
                "Failed to set SOCKS proxy: "@,
            ),
            networksetup(
                seq!["-setsocksfirewallproxystate"@, self.service_name(), "on"@],
                Tolerance::Strict,
                "Failed to enable SOCKS proxy: "@,
            ),
        ]
    }

    /// The proxy is switched off for the service, and the kill switch goes
    /// with it.
    pub open spec fn proxy_off(self) -> Seq<StepView> {
        seq![
            networksetup(
                seq!["-setsocksfirewallproxystate"@, self.service_name(), "off"@],
                Tolerance::Everything,
                Seq::empty(),
            ),
        ] + self.kill_switch_off()
    }

    /// On a host whose packet filter holds no rule, switching the kill switch
    /// on and then off leaves the rules in force as they were.
    pub proof fn lemma_on_then_off(self, host: HostRules)
        requires
            forall|scope: Scope|
                touches(self.kill_switch_on(), scope) ==> rules_in(host, scope) == Seq::<
                    CommandView,
                >::empty(),
        ensures
            same_rules(
                after_plan(after_plan(host, self.kill_switch_on()), self.kill_switch_off()),
                host,
            ),
    {
        let on = self.kill_switch_on();
        let off = self.kill_switch_off();
        assert(cleared_by(off[0].effect) == Some(Scope::PacketFilter));
        assert(scope_of(on[1].effect) == Some(Scope::PacketFilter));
        lemma_on_then_off_restores(host, on, off, set![Scope::PacketFilter]);
    }

    /// Loading the rules replaces what was loaded, and disabling the packet
    /// filter takes all of it out of force: to run either plan of the kill
    /// switch twice is to run it once.
    pub proof fn lemma_repeating_changes_nothing(self, host: HostRules)
        ensures
            same_rules(
                after_plan(after_plan(host, self.kill_switch_on()), self.kill_switch_on()),
                after_plan(host, self.kill_switch_on()),
            ),
            same_rules(
                after_plan(after_plan(host, self.kill_switch_off()), self.kill_switch_off()),
                after_plan(host, self.kill_switch_off()),
            ),
    {
        let on = self.kill_switch_on();
        let off = self.kill_switch_off();
        assert(resets_first(on, Scope::PacketFilter)) by {
            assert(resets(on[1].effect, Scope::PacketFilter));
            assert(scope_of(on[0].effect) is None);
        }
        assert(resets_first(off, Scope::PacketFilter)) by {
            assert(resets(off[0].effect, Scope::PacketFilter));
        }
        lemma_twice_is_once(host, on, set![Scope::PacketFilter]);
        lemma_twice_is_once(host, off, set![Scope::PacketFilter]);
    }
}

impl MacOSFirewall {
    /// The firewall for the given interface and service, that lets the
    /// traffic of `account` out and redirects to the given ports.
    pub fn new(
        interface: String,
        service: Option<String>,
        account: &str,
        dns_port: u16,
        trans_port: u16,
    ) -> (r: MacOSFirewall)
        ensures
            r@ == (MacOSFirewallView {
                interface: interface@,
                service: option_text(service),
                tor_user: account@,
                dns_port,
                trans_port,
            }),
    {
        MacOSFirewall {
            interface,
            service,
            tor_user: String::from_str(account),
            dns_port,
            trans_port,
        }
    }

    /// The query for the default route.
    pub fn route_query() -> (c: Command)
        ensures
            c@ == (CommandView { program: "route"@, args: seq!["get"@, "default"@] }),
    {
        let c = Command { program: String::from_str("route"), args: strings(&["get", "default"]) };
        assert(c@.args =~= seq!["get"@, "default"@]);
        c
    }

    /// The query for the list of hardware ports.
    pub fn service_query() -> (c: Command)
        ensures
            c@ == (CommandView { program: "networksetup"@, args: seq!["-listallhardwareports"@] }),
    {
        let c = Command {
            program: String::from_str("networksetup"),
            args: strings(&["-listallhardwareports"]),
        };
        assert(c@.args =~= seq!["-listallhardwareports"@]);
        c
    }

    /// Reads the interface of the default route from the output of the route
    /// query.
    pub fn detect_interface(route_output: &str) -> (r: Result<String, NipeError>)
        ensures
            match r {
                Ok(name) => interface_in(lines_of(route_output@)) == Some(name@),
                Err(e) => interface_in(lines_of(route_output@)) is None && e@
                    == NipeErrorView::InterfaceNotFound,
            },
    {
        let v = to_chars(route_output);
        let needle = to_chars("interface:");
        let lines = split_lines(&v);
        let ghost all = lines_of(v@);
        let mut i: usize = 0;
        assert(all.subrange(0, all.len() as int) =~= all);
        while i < lines.len()
            invariant
                i <= lines.len(),
                v@ == route_output@,
                needle@ == "interface:"@,
                all == lines_of(v@),
                range_texts(v@, lines@) == all,
                forall|k: int| 0 <= k < lines.len() ==> (#[trigger] lines[k]).0 <= lines[k].1 <= v.len(),
                interface_in(all) == interface_in(all.subrange(i as int, all.len() as int)),
            decreases lines.len() - i,
        {
            let (from, to) = lines[i];
            let ghost rest = all.subrange(i as int, all.len() as int);
            assert(rest[0] == all[i as int]);
            assert(all[i as int] == v@.subrange(from as int, to as int));
            assert(rest.drop_first() =~= all.subrange(i + 1, all.len() as int));
            if contains_in(&v, from, to, &needle) {
                match last_word_in(&v, from, to) {
                    Some((a, b)) => {
                        return Ok(slice_string(route_output, a, b));
                    },
                    None => {},
                }
            }
            i = i + 1;
        }
        Err(NipeError::InterfaceNotFound)
    }

    /// Reads the network service of `interface` from the list of hardware
    /// ports; the default service if the list does not name one.
    pub fn detect_service(interface: &str, listing: &str) -> (name: String)
        ensures
            name@ == service_of(interface@, listing@),
    {
        let v = to_chars(listing);
        let needle = to_chars(interface);
        let lines = split_lines(&v);
        let ghost all = lines_of(v@);
        let mut i: usize = 0;
        while i < lines.len()
            invariant
                i <= lines.len(),
                v@ == listing@,
                needle@ == interface@,
                all == lines_of(v@),
                range_texts(v@, lines@) == all,
                forall|k: int| 0 <= k < lines.len() ==> (#[trigger] lines[k]).0 <= lines[k].1 <= v.len(),
                service_in(all, interface@, 0) == service_in(all, interface@, i as int),
            decreases lines.len() - i,
        {
            let (from, to) = lines[i];
            assert(all[i as int] == v@.subrange(from as int, to as int));
            if i > 0 && contains_in(&v, from, to, &needle) {
                let (before_from, before_to) = lines[i - 1];
                assert(all[i - 1] == v@.subrange(before_from as int, before_to as int));
                match second_field_in(&v, before_from, before_to, ':') {
                    Some((a, b)) => {
                        let (c, d) = trim_in(&v, a, b);
                        return slice_string(listing, c, d);
                    },
                    None => {},
                }
            }
            i = i + 1;
        }
        String::from_str("Wi-Fi")
    }

    fn service_text(&self) -> (name: String)
        ensures
            name@ == self@.service_name(),
    {
        match &self.service {
            Some(name) => name.clone(),
            None => String::from_str("Wi-Fi"),
        }
    }

    fn pf_rules(&self) -> (text: String)
        ensures
            text@ == self@.pf_rules(),
    {
        let mut text = String::from_str("\n# Nipe Kill Switch Rules\next_if = \"");
        text.append(self.interface.as_str());
        text.append("\"\ntor_user = \"");
        text.append(self.tor_user.as_str());
        text.append("\"\n\n# Options\nset block-policy drop\n");
        assert(text@ =~= pf_head(self.interface@, self.tor_user@));
        let ghost head = text@;
        text.append(
            "\n# What is routed to the loopback is handed to the proxy\nrdr pass on lo0 inet proto { udp, tcp } from any to any port 53 -> 127.0.0.1 port ",
        );
        text.append(decimal_string(self.dns_port as u64).as_str());
        text.append("\nrdr pass on lo0 inet proto tcp from any to any -> 127.0.0.1 port ");
        text.append(decimal_string(self.trans_port as u64).as_str());
        text.append("\n");
        assert(text@ =~= head + pf_redirects(self.dns_port, self.trans_port));
        text.append(
            "\n# Established connections stay alive\npass out quick on $ext_if inet proto tcp from any to any flags A/A no state\n\n# The proxy's own traffic may leave\npass out quick on $ext_if inet proto { tcp, udp } from any to any user $tor_user keep state\n\n# DNS goes to the proxy\npass out quick on $ext_if route-to lo0 inet proto { udp, tcp } from any to any port 53 keep state\n\n# All other TCP goes to the proxy\npass out quick on $ext_if route-to lo0 inet proto tcp from any to any keep state\n\n# Everything else is dropped\nblock drop out quick on $ext_if all\n\n# IPv6 is blocked everywhere\nblock drop quick inet6 all\n",
        );
        text
    }
}

impl FirewallProvider for MacOSFirewall {
    open spec fn kill_switch_on(&self) -> Seq<StepView> {
        self@.kill_switch_on()
    }

    open spec fn kill_switch_off(&self) -> Seq<StepView> {
        self@.kill_switch_off()
    }

    open spec fn proxy_on(&self, port: u16) -> Seq<StepView> {
        self@.proxy_on(port)
    }

    open spec fn proxy_off(&self) -> Seq<StepView> {
        self@.proxy_off()
    }

    fn enable_kill_switch(&self) -> (plan: Vec<Step>) {
        let mut plan: Vec<Step> = Vec::new();
        plan.push(
            Step::plain(
                Effect::WriteFile {
                    path: String::from_str("/tmp/nipe_pf.conf"),
                    content: self.pf_rules(),
                },
                Tolerance::Strict,
                ErrorKind::IoError,
            ),
        );
        let load = run(
            "pfctl",
            &["-f", "/tmp/nipe_pf.conf"],
            Meaning::Replace(Scope::PacketFilter),
            Tolerance::Strict,
            "Failed to enable PF: ",
        );
        assert(load@.effect->Run_command.args =~= seq!["-f"@, rules_path()]);
        plan.push(load);
        let enable = run(
            "pfctl",
            &["-e"],
            Meaning::Neutral,
            Tolerance::ExitStatus,
            "Failed to enable PF: ",
        );
        assert(enable@.effect->Run_command.args =~= seq!["-e"@]);
        plan.push(enable);
        assert(steps_view(plan@) =~= self@.kill_switch_on());
        plan
    }

    fn disable_kill_switch(&self) -> (plan: Vec<Step>) {
        let mut plan: Vec<Step> = Vec::new();
        let off = run(
            "pfctl",
            &["-d"],
            Meaning::Clear(Scope::PacketFilter),
            Tolerance::ExitStatus,
            "Failed to disable PF: ",
        );
        assert(off@.effect->Run_command.args =~= seq!["-d"@]);
        plan.push(off);
        plan.push(
            Step::plain(
                Effect::RemoveFile { path: String::from_str("/tmp/nipe_pf.conf") },
                Tolerance::Everything,
                ErrorKind::IoError,
            ),
        );
        assert(steps_view(plan@) =~= self@.kill_switch_off());
        plan
    }

    fn enable_socks_proxy(&self, port: u16) -> (plan: Vec<Step>) {
        let service = self.service_text();
        let port_text = decimal_string(port as u64);
        let set = run(
            "networksetup",
            &["-setsocksfirewallproxy", service.as_str(), "127.0.0.1", port_text.as_str()],
            Meaning::Neutral,
            Tolerance::Strict,
            "Failed to set SOCKS proxy: ",
        );
        assert(set@.effect->Run_command.args =~= seq![
            "-setsocksfirewallproxy"@,
            self@.service_name(),
            "127.0.0.1"@,
            decimal(port as nat),
        ]);
        let switch = run(
            "networksetup",
            &["-setsocksfirewallproxystate", service.as_str(), "on"],
            Meaning::Neutral,
            Tolerance::Strict,
            "Failed to enable SOCKS proxy: ",
        );
        assert(switch@.effect->Run_command.args =~= seq![
            "-setsocksfirewallproxystate"@,
            self@.service_name(),
            "on"@,
        ]);
        let mut plan: Vec<Step> = Vec::new();
        plan.push(set);
        plan.push(switch);
        assert(steps_view(plan@) =~= self@.proxy_on(port));
        plan
    }

    fn disable_socks_proxy(&self) -> (plan: Vec<Step>) {
        let service = self.service_text();
        proof {
            reveal_strlit("");
        }
        let switch = run(
            "networksetup",
            &["-setsocksfirewallproxystate", service.as_str(), "off"],
            Meaning::Neutral,
            Tolerance::Everything,
            "",
        );
        assert(""@ =~= Seq::<char>::empty());
        assert(switch@.effect->Run_command.args =~= seq![
            "-setsocksfirewallproxystate"@,
            self@.service_name(),
            "off"@,
        ]);
        let mut plan: Vec<Step> = Vec::new();
        plan.push(switch);
        assert(steps_view(plan@) =~= seq![switch@]);
        extend(&mut plan, self.disable_kill_switch());
        plan
    }

    proof fn lemma_switching_off_is_lenient(&self) {
        let off = self@.kill_switch_off();
        assert(off.len() == 2);
    }

    proof fn lemma_proxy_installs_nothing(&self, port: u16) {
    }

    proof fn lemma_on_then_off(&self, host: HostRules) {
        self@.lemma_on_then_off(host);
    }
}

} // verus!
