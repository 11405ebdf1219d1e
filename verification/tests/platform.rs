use nipe::error::{ErrorKind, NipeError};
use nipe::host::{Command, Effect, Meaning, Reply, Scope};
use nipe::plan::{Mode, PlanRun, Step, Tolerance};
use nipe::platform::linux::LinuxFirewall;
use nipe::platform::macos::MacOSFirewall;
use nipe::platform::windows::WindowsFirewall;
use nipe::platform::{Firewall, FirewallProvider, Platform};

fn command_lines(plan: &[Step]) -> Vec<String> {
    plan.iter()
        .map(|step| match &step.effect {
            Effect::Run { command, .. } => format!("{} {}", command.program, command.args.join(" ")),
            Effect::WriteFile { path, .. } => format!("write {}", path),
            Effect::RemoveFile { path } => format!("remove {}", path),
            other => format!("{:?}", other),
        })
        .collect()
}

/// What is in force on a host after the steps of a plan all succeeded, by
/// scope, each rule as the command that installed it.
fn apply(host: &mut Vec<(Scope, Command)>, plan: &[Step]) {
    for step in plan {
        if let Effect::Run { command, meaning } = &step.effect {
            match meaning {
                Meaning::Neutral => {}
                Meaning::Clear(scope) => host.retain(|(s, _)| s != scope),
                Meaning::Append(scope) => host.push((*scope, command.clone())),
                Meaning::Replace(scope) => {
                    host.retain(|(s, _)| s != scope);
                    host.push((*scope, command.clone()));
                }
            }
        }
    }
}

fn firewalls() -> Vec<Firewall> {
    vec![
        Firewall::Linux(LinuxFirewall::new().unwrap()),
        Firewall::MacOS(MacOSFirewall::new("en0".to_string(), Some("Wi-Fi".to_string()), "112", 9061, 9050)),
        Firewall::Windows(WindowsFirewall::new().unwrap()),
    ]
}

fn verdict(plan: Vec<Step>, mode: Mode, reply: &dyn Fn(usize) -> Reply) -> (usize, Result<(), NipeError>) {
    let mut run = PlanRun::new(plan, mode);
    let mut asked = 0;
    while run.current().is_some() {
        run.record(&reply(asked));
        asked += 1;
    }
    (asked, run.verdict())
}

#[test]
fn linux_kill_switch_is_the_ordered_rule_set() {
    let firewall = LinuxFirewall::new().unwrap();
    assert_eq!(
        command_lines(&firewall.enable_kill_switch()),
        vec![
            "iptables -t nat -F OUTPUT",
            "iptables -t filter -F OUTPUT",
            "iptables -t nat -A OUTPUT -m state --state ESTABLISHED -j RETURN",
            "iptables -t nat -A OUTPUT -m owner --uid-owner debian-tor -j RETURN",
            "iptables -t nat -A OUTPUT -p udp --dport 53 -j REDIRECT --to-ports 9061",
            "iptables -t nat -A OUTPUT -p tcp --dport 53 -j REDIRECT --to-ports 9061",
            "iptables -t nat -A OUTPUT -p tcp -j REDIRECT --to-ports 9050",
            "iptables -t filter -A OUTPUT -m state --state ESTABLISHED -j ACCEPT",
            "iptables -t filter -A OUTPUT -m owner --uid-owner debian-tor -j ACCEPT",
            "iptables -t filter -A OUTPUT -p udp -j REJECT",
            "iptables -t filter -A OUTPUT -p icmp -j REJECT",
        ]
    );
    assert!(firewall.enable_kill_switch().iter().all(|s| s.tolerance == Tolerance::Strict));
    assert!(firewall.enable_kill_switch().iter().all(|s| s.kind == ErrorKind::FirewallError));
}

#[test]
fn linux_rules_follow_the_account_and_the_ports() {
    let firewall = LinuxFirewall::for_account("117", 5353, 9040);
    let nat = command_lines(&firewall.setup_nat_rules());
    assert_eq!(nat.len(), 5);
    assert_eq!(nat[1], "iptables -t nat -A OUTPUT -m owner --uid-owner 117 -j RETURN");
    assert_eq!(nat[2], "iptables -t nat -A OUTPUT -p udp --dport 53 -j REDIRECT --to-ports 5353");
    assert_eq!(nat[3], "iptables -t nat -A OUTPUT -p tcp --dport 53 -j REDIRECT --to-ports 5353");
    assert_eq!(nat[4], "iptables -t nat -A OUTPUT -p tcp -j REDIRECT --to-ports 9040");
    let filter = command_lines(&firewall.setup_filter_rules());
    assert_eq!(filter.len(), 4);
    assert_eq!(filter[1], "iptables -t filter -A OUTPUT -m owner --uid-owner 117 -j ACCEPT");
}

#[test]
fn linux_teardown_flushes_and_deletes() {
    let firewall = LinuxFirewall::new().unwrap();
    assert_eq!(
        command_lines(&firewall.disable_kill_switch()),
        vec![
            "iptables -t nat -F OUTPUT",
            "iptables -t filter -F OUTPUT",
            "iptables -t nat -X",
            "iptables -t filter -X",
        ]
    );
    assert!(firewall.enable_socks_proxy(9050).is_empty());
    assert!(firewall.disable_socks_proxy().is_empty());
}

#[test]
fn windows_kill_switch_is_one_blocking_rule() {
    let firewall = WindowsFirewall::new().unwrap();
    let on = firewall.enable_kill_switch();
    assert_eq!(
        command_lines(&on),
        vec![
            "netsh advfirewall firewall delete rule name=Nipe Kill Switch",
            "netsh advfirewall firewall add rule name=Nipe Kill Switch dir=out action=block enable=yes profile=any",
        ]
    );
    assert_eq!(on[0].tolerance, Tolerance::Everything);
    assert_eq!(on[1].tolerance, Tolerance::Strict);
    assert_eq!(
        command_lines(&firewall.disable_kill_switch()),
        vec!["netsh advfirewall firewall delete rule name=Nipe Kill Switch"]
    );
    assert_eq!(
        command_lines(&firewall.enable_socks_proxy(9150)),
        vec!["netsh winhttp set proxy 127.0.0.1:9150"]
    );
    assert_eq!(command_lines(&firewall.disable_socks_proxy()), vec!["netsh winhttp reset proxy"]);
}

#[test]
fn macos_kill_switch_loads_the_ordered_rules_for_the_interface() {
    let firewall = MacOSFirewall::new("en0".to_string(), None, "260", 5353, 9040);
    let on = firewall.enable_kill_switch();
    assert_eq!(
        command_lines(&on),
        vec!["write /tmp/nipe_pf.conf", "pfctl -f /tmp/nipe_pf.conf", "pfctl -e"]
    );
    let rules = match &on[0].effect {
        Effect::WriteFile { content, .. } => content.clone(),
        other => panic!("unexpected: {:?}", other),
    };
    assert_eq!(
        rules,
        "\n# Nipe Kill Switch Rules\next_if = \"en0\"\ntor_user = \"260\"\n\n# Options\nset block-policy drop\n\n# What is routed to the loopback is handed to the proxy\nrdr pass on lo0 inet proto { udp, tcp } from any to any port 53 -> 127.0.0.1 port 5353\nrdr pass on lo0 inet proto tcp from any to any -> 127.0.0.1 port 9040\n\n# Established connections stay alive\npass out quick on $ext_if inet proto tcp from any to any flags A/A no state\n\n# The proxy's own traffic may leave\npass out quick on $ext_if inet proto { tcp, udp } from any to any user $tor_user keep state\n\n# DNS goes to the proxy\npass out quick on $ext_if route-to lo0 inet proto { udp, tcp } from any to any port 53 keep state\n\n# All other TCP goes to the proxy\npass out quick on $ext_if route-to lo0 inet proto tcp from any to any keep state\n\n# Everything else is dropped\nblock drop out quick on $ext_if all\n\n# IPv6 is blocked everywhere\nblock drop quick inet6 all\n"
    );
    let position = |needle: &str| rules.find(needle).unwrap_or_else(|| panic!("no {:?}", needle));
    let order = [
        position("flags A/A"),
        position("user $tor_user"),
        position("route-to lo0 inet proto { udp, tcp } from any to any port 53"),
        position("route-to lo0 inet proto tcp from any to any keep state"),
        position("block drop out quick on $ext_if all"),
        position("block drop quick inet6 all"),
    ];
    assert!(order.windows(2).all(|pair| pair[0] < pair[1]));
    let passes: Vec<&str> = rules.lines().filter(|line| line.starts_with("pass ")).collect();
    assert_eq!(passes.len(), 4);
    assert!(passes.iter().all(|line| line.contains(" on $ext_if ") && line.contains(" inet ")));
    assert!(!rules.contains("root"));
    assert_eq!(on[0].kind, ErrorKind::IoError);
    assert_eq!(on[1].tolerance, Tolerance::Strict);
    assert_eq!(on[1].context, "Failed to enable PF: ");
    assert_eq!(on[2].tolerance, Tolerance::ExitStatus);
    assert_eq!(
        command_lines(&firewall.disable_kill_switch()),
        vec!["pfctl -d", "remove /tmp/nipe_pf.conf"]
    );
}

#[test]
fn macos_proxy_falls_back_to_the_default_service() {
    let firewall = MacOSFirewall::new("en0".to_string(), None, "112", 9061, 9050);
    assert_eq!(
        command_lines(&firewall.enable_socks_proxy(9050)),
        vec![
            "networksetup -setsocksfirewallproxy Wi-Fi 127.0.0.1 9050",
            "networksetup -setsocksfirewallproxystate Wi-Fi on",
        ]
    );
    let firewall = MacOSFirewall::new("en5".to_string(), Some("Thunderbolt Bridge".to_string()), "0", 9061, 9050);
    assert_eq!(
        firewall.enable_socks_proxy(9050)[0].effect,
        Effect::Run {
            command: Command {
                program: "networksetup".to_string(),
                args: vec![
                    "-setsocksfirewallproxy".to_string(),
                    "Thunderbolt Bridge".to_string(),
                    "127.0.0.1".to_string(),
                    "9050".to_string()
                ],
            },
            meaning: Meaning::Neutral,
        }
    );
}

#[test]
fn macos_proxy_teardown_takes_the_kill_switch_with_it() {
    let firewall = MacOSFirewall::new("en0".to_string(), Some("Ethernet".to_string()), "0", 9061, 9050);
    assert_eq!(
        command_lines(&firewall.disable_socks_proxy()),
        vec![
            "networksetup -setsocksfirewallproxystate Ethernet off",
            "pfctl -d",
            "remove /tmp/nipe_pf.conf",
        ]
    );
}

#[test]
fn interface_is_the_last_word_of_the_interface_line() {
    let output = "   route to: default\ndestination: default\n       mask: default\n    gateway: 192.168.1.1\n  interface: en0\n      flags: <UP,GATEWAY,DONE,STATIC,PRCLONING,GLOBAL>\n";
    assert_eq!(MacOSFirewall::detect_interface(output), Ok("en0".to_string()));
    assert_eq!(MacOSFirewall::detect_interface("interface: utun3   \r\n"), Ok("utun3".to_string()));
    assert_eq!(
        MacOSFirewall::detect_interface("x\ninterface:\ninterface: en1"),
        Ok("interface:".to_string())
    );
    assert_eq!(MacOSFirewall::detect_interface("no interface:en9\tlo0"), Ok("lo0".to_string()));
}

#[test]
fn output_without_an_interface_line_names_none() {
    assert_eq!(MacOSFirewall::detect_interface(""), Err(NipeError::InterfaceNotFound));
    assert_eq!(
        MacOSFirewall::detect_interface("route: writing to routing socket: not in table\n"),
        Err(NipeError::InterfaceNotFound)
    );
    assert_eq!(MacOSFirewall::detect_interface("Interface: en0\n"), Err(NipeError::InterfaceNotFound));
}

#[test]
fn service_is_named_on_the_line_before_the_device() {
    let listing = "\nHardware Port: Wi-Fi\nDevice: en0\nEthernet Address: a4:83:e7:00:00:01\n\nHardware Port: Thunderbolt Bridge\nDevice: bridge0\nEthernet Address: 82:0d:00:00:00:02\n";
    assert_eq!(MacOSFirewall::detect_service("en0", listing), "Wi-Fi");
    assert_eq!(MacOSFirewall::detect_service("bridge0", listing), "Thunderbolt Bridge");
    assert_eq!(MacOSFirewall::detect_service("en9", listing), "Wi-Fi");
    assert_eq!(MacOSFirewall::detect_service("en0", ""), "Wi-Fi");
    assert_eq!(MacOSFirewall::detect_service("en0", "Device: en0\nHardware Port: X\n"), "Wi-Fi");
    assert_eq!(MacOSFirewall::detect_service("en1", "a: b : c\nDevice: en1\n"), "b");
    assert_eq!(MacOSFirewall::detect_service("en1", "no colon\nDevice: en1\nPort:  USB \nen1\n"), "USB");
    assert_eq!(
        MacOSFirewall::detect_service("en2", "Hardware Port: LAN\r\nDevice: en2\r\n"),
        "LAN"
    );
}

#[test]
fn queries_for_the_firewall_are_fixed() {
    assert_eq!(
        MacOSFirewall::route_query(),
        Command { program: "route".to_string(), args: vec!["get".to_string(), "default".to_string()] }
    );
    assert_eq!(
        MacOSFirewall::service_query(),
        Command { program: "networksetup".to_string(), args: vec!["-listallhardwareports".to_string()] }
    );
}

#[test]
fn kill_switch_on_then_off_restores_a_clean_host() {
    for firewall in firewalls() {
        let mut host: Vec<(Scope, Command)> = Vec::new();
        apply(&mut host, &firewall.enable_kill_switch());
        assert!(!host.is_empty(), "{:?}", firewall.platform());
        apply(&mut host, &firewall.disable_kill_switch());
        assert!(host.is_empty(), "{:?}", firewall.platform());
    }
}

#[test]
fn kill_switch_on_twice_is_on_once() {
    for firewall in firewalls() {
        let mut once: Vec<(Scope, Command)> = Vec::new();
        apply(&mut once, &firewall.enable_kill_switch());
        let mut twice = once.clone();
        apply(&mut twice, &firewall.enable_kill_switch());
        assert_eq!(once, twice, "{:?}", firewall.platform());
    }
}

#[test]
fn switching_off_what_was_never_on_succeeds() {
    for firewall in firewalls() {
        let refuse = |_: usize| Reply::Exited {
            success: false,
            stdout: String::new(),
            stderr: "No rules match the specified criteria.".to_string(),
        };
        let plan = firewall.disable_kill_switch();
        let steps = plan.len();
        assert_eq!(verdict(plan, Mode::HaltOnFailure, &refuse), (steps, Ok(())));
        let plan = firewall.disable_socks_proxy();
        let steps = plan.len();
        assert_eq!(verdict(plan, Mode::HaltOnFailure, &refuse), (steps, Ok(())));
    }
}

#[test]
fn refused_rule_is_a_firewall_error_with_the_diagnostic_output() {
    let firewall = LinuxFirewall::new().unwrap();
    let reply = |i: usize| Reply::Exited {
        success: i != 3,
        stdout: String::new(),
        stderr: format!("iptables v1.8.7: bad rule {}", i),
    };
    assert_eq!(
        verdict(firewall.enable_kill_switch(), Mode::HaltOnFailure, &reply),
        (4, Err(NipeError::FirewallError("iptables v1.8.7: bad rule 3".to_string())))
    );
    let firewall = WindowsFirewall::new().unwrap();
    let refuse = |_: usize| Reply::Exited {
        success: false,
        stdout: String::new(),
        stderr: "The requested operation requires elevation.".to_string(),
    };
    assert_eq!(
        verdict(firewall.enable_kill_switch(), Mode::HaltOnFailure, &refuse),
        (
            2,
            Err(NipeError::FirewallError(
                "netsh command failed: The requested operation requires elevation.".to_string()
            ))
        )
    );
    let firewall = MacOSFirewall::new("en0".to_string(), None, "112", 9061, 9050);
    assert_eq!(
        verdict(firewall.enable_socks_proxy(9050), Mode::HaltOnFailure, &refuse),
        (
            1,
            Err(NipeError::FirewallError(
                "Failed to set SOCKS proxy: The requested operation requires elevation.".to_string()
            ))
        )
    );
}

#[test]
fn packet_filter_that_is_already_enabled_is_no_failure() {
    let firewall = MacOSFirewall::new("en0".to_string(), None, "112", 9061, 9050);
    let reply = |i: usize| {
        if i == 2 {
            Reply::Exited { success: false, stdout: String::new(), stderr: "pf already enabled".to_string() }
        } else {
            Reply::Exited { success: true, stdout: String::new(), stderr: String::new() }
        }
    };
    assert_eq!(verdict(firewall.enable_kill_switch(), Mode::HaltOnFailure, &reply), (3, Ok(())));
    let missing = |_: usize| Reply::Failed("No such file or directory (os error 2)".to_string());
    assert_eq!(
        verdict(firewall.disable_kill_switch(), Mode::HaltOnFailure, &missing),
        (
            1,
            Err(NipeError::FirewallError(
                "Failed to disable PF: No such file or directory (os error 2)".to_string()
            ))
        )
    );
}

#[test]
fn failed_load_of_the_rules_is_a_firewall_error() {
    let firewall = MacOSFirewall::new("en0".to_string(), None, "112", 9061, 9050);
    let reply = |i: usize| {
        if i == 1 {
            Reply::Exited {
                success: false,
                stdout: String::new(),
                stderr: "/tmp/nipe_pf.conf:12: syntax error".to_string(),
            }
        } else {
            Reply::Done
        }
    };
    assert_eq!(
        verdict(firewall.enable_kill_switch(), Mode::HaltOnFailure, &reply),
        (
            2,
            Err(NipeError::FirewallError(
                "Failed to enable PF: /tmp/nipe_pf.conf:12: syntax error".to_string()
            ))
        )
    );
}

#[test]
fn firewall_knows_its_platform() {
    let platforms: Vec<Platform> = firewalls().iter().map(|f| f.platform()).collect();
    assert_eq!(platforms, vec![Platform::Linux, Platform::MacOS, Platform::Windows]);
}

#[test]
fn tags_say_what_the_command_lines_do() {
    let writes_rules = |command: &Command| {
        (command.program == "iptables" && command.args.get(2).map(|a| a == "-A") == Some(true))
            || (command.program == "pfctl" && command.args.first().map(|a| a == "-f") == Some(true))
            || (command.program == "netsh" && command.args.get(2).map(|a| a == "add") == Some(true))
    };
    for firewall in firewalls() {
        let plans = vec![
            firewall.enable_kill_switch(),
            firewall.disable_kill_switch(),
            firewall.enable_socks_proxy(9050),
            firewall.disable_socks_proxy(),
        ];
        for step in plans.iter().flatten() {
            if let Effect::Run { command, meaning } = &step.effect {
                let tagged = matches!(meaning, Meaning::Append(_) | Meaning::Replace(_));
                assert_eq!(tagged, writes_rules(command), "{:?}", command);
            }
        }
    }
}
