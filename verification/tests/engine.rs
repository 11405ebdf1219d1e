use nipe::config::NipeConfig;
use nipe::engine::{NipeEngine, Operation, ProcessHandle, Progress, Stage};
use nipe::error::NipeError;
use nipe::host::{Command, Effect, Meaning, Owner, Reply};
use nipe::layout::Layout;
use nipe::platform::Platform;
use nipe::privilege::PrivilegeContext;

fn ran(stdout: &str) -> Reply {
    Reply::Exited { success: true, stdout: stdout.to_string(), stderr: String::new() }
}

fn refused(stderr: &str) -> Reply {
    Reply::Exited { success: false, stdout: String::new(), stderr: stderr.to_string() }
}

fn layout() -> Option<Layout> {
    Some(Layout {
        base: "/tmp/nipe".to_string(),
        torrc: "/tmp/nipe/torrc".to_string(),
        log: "/tmp/nipe/tor.log".to_string(),
    })
}

fn engine(platform: Platform) -> NipeEngine {
    NipeEngine::with_layout(NipeConfig::default(), platform, layout())
}

/// Carries an operation to its end. Every effect goes to `host`; what was
/// asked for is handed back with the result.
fn drive(
    engine: &mut NipeEngine,
    first: Progress,
    host: &mut dyn FnMut(&Effect) -> Reply,
) -> (Vec<Effect>, Result<(), NipeError>) {
    let mut asked = Vec::new();
    let mut progress = first;
    loop {
        match progress {
            Progress::Finished(result) => return (asked, result),
            Progress::Perform(effect) => {
                assert!(asked.len() < 1000, "the operation does not end");
                let reply = host(&effect);
                asked.push(effect);
                progress = engine.advance(reply);
            }
        }
    }
}

/// A Linux host on which everything works and the account `debian-tor`
/// exists.
fn healthy(effect: &Effect) -> Reply {
    match effect {
        Effect::Run { command, .. } if command.program == "id" => {
            if command.args == ["-u", "debian-tor"] {
                ran("112\n")
            } else if command.args == ["-g", "debian-tor"] {
                ran("116\n")
            } else if command.args == ["-u"] {
                ran("0\n")
            } else {
                refused("id: no such user")
            }
        }
        Effect::Run { .. } => ran(""),
        Effect::PathExists { path } => Reply::Exists(path == "/usr/sbin/tor"),
        Effect::Spawn { .. } => Reply::Spawned { pid: 4242 },
        Effect::Fetch { .. } => Reply::Body("{\"IsTor\":true,\"IP\":\"185.220.101.1\"}".to_string()),
        _ => Reply::Done,
    }
}

fn run(program: &str, args: &[&str], meaning: Meaning) -> Effect {
    Effect::Run {
        command: Command {
            program: program.to_string(),
            args: args.iter().map(|a| a.to_string()).collect(),
        },
        meaning,
    }
}

fn installs(effect: &Effect) -> bool {
    matches!(
        effect,
        Effect::Run { meaning: Meaning::Append(_), .. } | Effect::Run { meaning: Meaning::Replace(_), .. }
    )
}

fn programs(asked: &[Effect]) -> Vec<String> {
    asked
        .iter()
        .filter_map(|e| match e {
            Effect::Run { command, .. } => Some(command.program.clone()),
            _ => None,
        })
        .collect()
}

#[test]
fn new_engine_is_idle_and_holds_nothing() {
    let engine = NipeEngine::new(NipeConfig::default(), Platform::Linux).unwrap();
    assert_eq!(engine.operation(), Operation::Idle);
    assert_eq!(engine.stage(), Stage::Idle);
    assert_eq!(engine.tor_process(), None);
    assert_eq!(engine.tor_user(), None);
    assert_eq!(engine.platform(), Platform::Linux);
    assert_eq!(engine.config().tor.socks_port, 9050);
    assert!(engine.warnings().is_empty());
}

#[test]
fn layout_lies_beside_the_data_directory() {
    let layout = Layout::of("/tmp/nipe/tor-data").unwrap();
    assert_eq!(layout.base, "/tmp/nipe");
    assert_eq!(layout.torrc, "/tmp/nipe/torrc");
    assert_eq!(layout.log, "/tmp/nipe/tor.log");
    assert_eq!(Layout::of(""), None);
    assert_eq!(Layout::of("/"), None);
}

#[test]
fn start_runs_the_stages_in_order() {
    let mut engine = engine(Platform::Linux);
    let first = engine.start();
    let (asked, result) = drive(&mut engine, first, &mut healthy);
    assert_eq!(result, Ok(()));
    let account = Owner::Account { uid: 112, gid: 116 };
    let expected = vec![
        run("iptables", &["-t", "nat", "-F", "OUTPUT"], Meaning::Clear(nipe::host::Scope::NatOutput)),
        run("iptables", &["-t", "filter", "-F", "OUTPUT"], Meaning::Clear(nipe::host::Scope::FilterOutput)),
        run("iptables", &["-t", "nat", "-X"], Meaning::Neutral),
        run("iptables", &["-t", "filter", "-X"], Meaning::Neutral),
        run("pkill", &["-f", "tor -f /tmp/nipe/torrc"], Meaning::Neutral),
        run("id", &["-u", "debian-tor"], Meaning::Neutral),
        run("id", &["-g", "debian-tor"], Meaning::Neutral),
        Effect::CreateDirAll { path: "/tmp/nipe".to_string() },
        Effect::CreateDirAll { path: "/tmp/nipe/tor-data".to_string() },
        Effect::SetMode { path: "/tmp/nipe/tor-data".to_string(), mode: 0o700 },
        Effect::Chown { path: "/tmp/nipe/tor-data".to_string(), owner: account },
        Effect::WriteFile {
            path: "/tmp/nipe/torrc".to_string(),
            content: nipe::torrc::generate_torrc(&NipeConfig::default().tor, ""),
        },
        Effect::Chown { path: "/tmp/nipe/torrc".to_string(), owner: account },
        Effect::CreateDirAll { path: "/tmp/nipe".to_string() },
        Effect::SetMode { path: "/tmp/nipe".to_string(), mode: 0o750 },
        Effect::Chown { path: "/tmp/nipe".to_string(), owner: account },
        Effect::CreateFile { path: "/tmp/nipe/tor.log".to_string() },
        Effect::SetMode { path: "/tmp/nipe/tor.log".to_string(), mode: 0o640 },
        Effect::Chown { path: "/tmp/nipe/tor.log".to_string(), owner: account },
        Effect::PathExists { path: "/usr/bin/tor".to_string() },
        Effect::PathExists { path: "/usr/sbin/tor".to_string() },
        Effect::Spawn {
            program: "/usr/sbin/tor".to_string(),
            args: vec!["-f".to_string(), "/tmp/nipe/torrc".to_string()],
            log_path: "/tmp/nipe/tor.log".to_string(),
            account: Some(account),
        },
        Effect::Fetch {
            url: "https://check.torproject.org/api/ip".to_string(),
            proxy: "socks5h://127.0.0.1:9050".to_string(),
            timeout_secs: 5,
        },
    ];
    assert_eq!(&asked[..expected.len()], &expected[..]);
    let rest = &asked[expected.len()..];
    assert_eq!(rest.len(), 12);
    assert_eq!(
        rest[0],
        run("iptables", &["-t", "nat", "-F", "OUTPUT"], Meaning::Clear(nipe::host::Scope::NatOutput))
    );
    assert_eq!(
        rest[3],
        run(
            "iptables",
            &["-t", "nat", "-A", "OUTPUT", "-m", "owner", "--uid-owner", "112", "-j", "RETURN"],
            Meaning::Append(nipe::host::Scope::NatOutput)
        )
    );
    assert_eq!(rest[11], Effect::Detach { pid: 4242 });
    assert_eq!(engine.tor_process(), None);
    assert_eq!(engine.tor_user(), Some(PrivilegeContext { uid: 112, gid: 116 }));
    assert_eq!(engine.operation(), Operation::Idle);
    assert!(engine.warnings().is_empty());
}

#[test]
fn start_without_an_account_runs_as_the_caller_and_warns() {
    let mut engine = engine(Platform::Linux);
    let first = engine.start();
    let mut host = |effect: &Effect| match effect {
        Effect::Run { command, .. } if command.program == "id" && command.args.len() == 2 => {
            refused("id: no such user")
        }
        Effect::Run { command, .. } if command.program == "id" => ran("501\n"),
        other => healthy(other),
    };
    let (asked, result) = drive(&mut engine, first, &mut host);
    assert_eq!(result, Ok(()));
    assert_eq!(engine.tor_user(), None);
    assert_eq!(engine.caller(), Some(501));
    assert_eq!(engine.warnings(), &vec!["No unprivileged user found. Tor will run with the caller's privileges!".to_string()]);
    let ids: Vec<&Effect> = asked
        .iter()
        .filter(|e| matches!(e, Effect::Run { command, .. } if command.program == "id"))
        .collect();
    assert_eq!(
        ids,
        vec![
            &run("id", &["-u", "debian-tor"], Meaning::Neutral),
            &run("id", &["-u", "tor"], Meaning::Neutral),
            &run("id", &["-u", "nobody"], Meaning::Neutral),
            &run("id", &["-u"], Meaning::Neutral)
        ]
    );
    let caller = asked.iter().position(|e| e == &run("id", &["-u"], Meaning::Neutral)).unwrap();
    assert!(matches!(asked[caller - 1], Effect::Fetch { .. }));
    let chowns: Vec<&Effect> = asked.iter().filter(|e| matches!(e, Effect::Chown { .. })).collect();
    assert_eq!(
        chowns,
        vec![&Effect::Chown { path: "/tmp/nipe".to_string(), owner: Owner::Caller }]
    );
    assert!(asked.iter().any(|e| matches!(e, Effect::Spawn { account: None, .. })));
    assert!(asked.contains(&run(
        "iptables",
        &["-t", "filter", "-A", "OUTPUT", "-m", "owner", "--uid-owner", "501", "-j", "ACCEPT"],
        Meaning::Append(nipe::host::Scope::FilterOutput)
    )));
    assert!(asked.iter().all(
        |e| !matches!(e, Effect::Run { command, .. } if command.args.contains(&"root".to_string()))
    ));
}

#[test]
fn caller_is_not_asked_for_where_no_rule_names_an_account() {
    let no_account = |effect: &Effect| match effect {
        Effect::Run { command, .. } if command.program == "id" => refused("id: no such user"),
        other => healthy(other),
    };
    let mut config = NipeConfig::default();
    config.firewall.enable_kill_switch = false;
    let mut engine = NipeEngine::with_layout(config, Platform::Linux, layout());
    let first = engine.start();
    let (asked, result) = drive(&mut engine, first, &mut { no_account });
    assert_eq!(result, Ok(()));
    assert!(!asked.contains(&run("id", &["-u"], Meaning::Neutral)));

    let mut engine = self::engine(Platform::Windows);
    let first = engine.start();
    let (asked, result) = drive(&mut engine, first, &mut { no_account });
    assert_eq!(result, Ok(()));
    assert!(!asked.contains(&run("id", &["-u"], Meaning::Neutral)));
    assert_eq!(engine.caller(), None);
}

#[test]
fn unknown_caller_fails_the_start_before_any_rule() {
    let mut engine = engine(Platform::Linux);
    let first = engine.start();
    let mut host = |effect: &Effect| match effect {
        Effect::Run { command, .. } if command.program == "id" => refused("id: cannot find name"),
        other => healthy(other),
    };
    let (asked, result) = drive(&mut engine, first, &mut host);
    assert_eq!(
        result,
        Err(NipeError::FirewallError(
            "Cannot find out the caller's user id: id: cannot find name".to_string()
        ))
    );
    assert!(asked.iter().all(|e| !installs(e)));
    assert_eq!(asked.last(), Some(&Effect::Kill { pid: 4242 }));
}

#[test]
fn account_search_ends_when_a_query_cannot_be_run() {
    let mut engine = engine(Platform::Linux);
    let first = engine.start();
    let mut host = |effect: &Effect| match effect {
        Effect::Run { command, .. } if command.program == "id" && command.args.len() == 2 => {
            Reply::Failed("no id".to_string())
        }
        other => healthy(other),
    };
    let (asked, result) = drive(&mut engine, first, &mut host);
    assert_eq!(result, Ok(()));
    let account_queries = asked
        .iter()
        .filter(|e| matches!(e, Effect::Run { command, .. } if command.program == "id" && command.args.len() == 2))
        .count();
    assert_eq!(account_queries, 1);
    assert_eq!(engine.tor_user(), None);
    assert_eq!(engine.caller(), Some(0));
}

#[test]
fn second_candidate_is_taken_when_the_first_has_no_group() {
    let mut engine = engine(Platform::Linux);
    let first = engine.start();
    let mut host = |effect: &Effect| match effect {
        Effect::Run { command, .. } if command.program == "id" => {
            if command.args == ["-u", "debian-tor"] {
                ran(" 112 \n")
            } else if command.args == ["-g", "debian-tor"] {
                ran("none\n")
            } else if command.args == ["-u", "tor"] {
                ran("43\n")
            } else if command.args == ["-g", "tor"] {
                Reply::Exited { success: false, stdout: "44\n".to_string(), stderr: String::new() }
            } else {
                refused("")
            }
        }
        other => healthy(other),
    };
    let (_, result) = drive(&mut engine, first, &mut host);
    assert_eq!(result, Ok(()));
    assert_eq!(engine.tor_user(), Some(PrivilegeContext { uid: 43, gid: 44 }));
}

#[test]
fn missing_binary_is_a_failed_start_that_installs_nothing() {
    let mut engine = engine(Platform::Linux);
    let first = engine.start();
    let mut host = |effect: &Effect| match effect {
        Effect::PathExists { .. } => Reply::Exists(false),
        Effect::Spawn { .. } => Reply::Failed("No such file or directory (os error 2)".to_string()),
        other => healthy(other),
    };
    let (asked, result) = drive(&mut engine, first, &mut host);
    assert_eq!(
        result,
        Err(NipeError::TorStartFailed("No such file or directory (os error 2)".to_string()))
    );
    assert!(asked.iter().all(|e| !installs(e)));
    let spawn = asked.iter().position(|e| matches!(e, Effect::Spawn { .. })).unwrap();
    assert!(matches!(&asked[spawn], Effect::Spawn { program, .. } if program == "tor"));
    assert_eq!(
        programs(&asked[spawn + 1..]),
        vec!["iptables", "iptables", "iptables", "iptables", "pkill"]
    );
    assert_eq!(asked.len(), spawn + 6);
    assert_eq!(engine.operation(), Operation::Idle);
    assert_eq!(engine.tor_process(), None);
}

#[test]
fn bootstrap_times_out_after_sixty_attempts_and_the_proxy_is_killed() {
    let mut engine = engine(Platform::Linux);
    let first = engine.start();
    let mut host = |effect: &Effect| match effect {
        Effect::Fetch { .. } => Reply::Failed("connection refused".to_string()),
        other => healthy(other),
    };
    let (asked, result) = drive(&mut engine, first, &mut host);
    assert_eq!(result, Err(NipeError::BootstrapTimeout));
    assert_eq!(asked.iter().filter(|e| matches!(e, Effect::Fetch { .. })).count(), 60);
    assert_eq!(asked.iter().filter(|e| matches!(e, Effect::Sleep { seconds: 1 })).count(), 60);
    assert_eq!(asked.last(), Some(&Effect::Kill { pid: 4242 }));
    assert!(asked.iter().all(|e| !installs(e)));
    assert_eq!(engine.tor_process(), None);
}

#[test]
fn bootstrap_ends_with_the_first_confirmation() {
    let mut engine = engine(Platform::Linux);
    let first = engine.start();
    let mut attempts = 0;
    let mut host = |effect: &Effect| match effect {
        Effect::Fetch { .. } => {
            attempts += 1;
            if attempts < 3 {
                Reply::Body("{\"IsTor\":false}".to_string())
            } else {
                Reply::Body("{\"IsTor\":true}".to_string())
            }
        }
        other => healthy(other),
    };
    let (asked, result) = drive(&mut engine, first, &mut host);
    assert_eq!(result, Ok(()));
    assert_eq!(asked.iter().filter(|e| matches!(e, Effect::Fetch { .. })).count(), 3);
    assert_eq!(asked.iter().filter(|e| matches!(e, Effect::Sleep { .. })).count(), 2);
}

#[test]
fn start_without_kill_switch_installs_no_rule() {
    let mut config = NipeConfig::default();
    config.firewall.enable_kill_switch = false;
    let mut engine = NipeEngine::with_layout(config, Platform::Linux, layout());
    let first = engine.start();
    let (asked, result) = drive(&mut engine, first, &mut healthy);
    assert_eq!(result, Ok(()));
    assert!(asked.iter().all(|e| !installs(e)));
    assert!(asked
        .iter()
        .all(|e| !matches!(e, Effect::Run { command, .. } if command.args.contains(&"-A".to_string()))));
    assert_eq!(asked.last(), Some(&Effect::Detach { pid: 4242 }));

    let mut config = NipeConfig::default();
    config.firewall.enable_kill_switch = false;
    let mut engine = NipeEngine::with_layout(config, Platform::Windows, layout());
    let first = engine.start();
    let (asked, result) = drive(&mut engine, first, &mut healthy);
    assert_eq!(result, Ok(()));
    assert!(asked.iter().all(|e| !installs(e)));
    assert!(asked.contains(&run("netsh", &["winhttp", "set", "proxy", "127.0.0.1:9050"], Meaning::Neutral)));
}

#[test]
fn failing_rule_rolls_back_with_the_diagnostic_output() {
    let mut engine = engine(Platform::Linux);
    let first = engine.start();
    let mut host = |effect: &Effect| match effect {
        Effect::Run { command, .. } if command.args.contains(&"--uid-owner".to_string()) => {
            refused("iptables: owner: Bad value for \"--uid-owner\"")
        }
        other => healthy(other),
    };
    let (asked, result) = drive(&mut engine, first, &mut host);
    assert_eq!(
        result,
        Err(NipeError::FirewallError("iptables: owner: Bad value for \"--uid-owner\"".to_string()))
    );
    let failed = asked
        .iter()
        .position(|e| matches!(e, Effect::Run { command, .. } if command.args.contains(&"--uid-owner".to_string())))
        .unwrap();
    assert_eq!(
        &asked[failed + 1..],
        &[
            run("iptables", &["-t", "nat", "-F", "OUTPUT"], Meaning::Clear(nipe::host::Scope::NatOutput)),
            run("iptables", &["-t", "filter", "-F", "OUTPUT"], Meaning::Clear(nipe::host::Scope::FilterOutput)),
            run("iptables", &["-t", "nat", "-X"], Meaning::Neutral),
            run("iptables", &["-t", "filter", "-X"], Meaning::Neutral),
            Effect::Kill { pid: 4242 },
        ]
    );
    assert_eq!(engine.tor_process(), None);
}

#[test]
fn failing_directory_is_an_io_error_and_rolls_back() {
    let mut engine = engine(Platform::Linux);
    let first = engine.start();
    let mut host = |effect: &Effect| match effect {
        Effect::SetMode { mode: 0o700, .. } => Reply::Failed("Operation not permitted".to_string()),
        other => healthy(other),
    };
    let (asked, result) = drive(&mut engine, first, &mut host);
    assert_eq!(result, Err(NipeError::IoError("Operation not permitted".to_string())));
    assert!(!asked.iter().any(|e| matches!(e, Effect::WriteFile { .. } | Effect::Spawn { .. })));
    assert_eq!(programs(&asked).last().map(|s| s.as_str()), Some("pkill"));
}

#[test]
fn failing_chown_and_log_name_their_paths() {
    let mut engine = engine(Platform::Linux);
    let first = engine.start();
    let mut host = |effect: &Effect| match effect {
        Effect::Chown { .. } => Reply::Failed("EPERM".to_string()),
        other => healthy(other),
    };
    let (_, result) = drive(&mut engine, first, &mut host);
    assert_eq!(result, Err(NipeError::Other("Failed to chown /tmp/nipe/tor-data: EPERM".to_string())));

    let mut engine = self::engine(Platform::Linux);
    let first = engine.start();
    let mut host = |effect: &Effect| match effect {
        Effect::CreateFile { .. } => Reply::Failed("read-only".to_string()),
        other => healthy(other),
    };
    let (_, result) = drive(&mut engine, first, &mut host);
    assert_eq!(
        result,
        Err(NipeError::TorStartFailed("Failed to create log file /tmp/nipe/tor.log: read-only".to_string()))
    );
}

#[test]
fn start_without_layout_is_a_configuration_error() {
    let mut config = NipeConfig::default();
    config.tor.data_directory = "/".to_string();
    let mut engine = NipeEngine::new(config, Platform::Linux).unwrap();
    let first = engine.start();
    let (asked, result) = drive(&mut engine, first, &mut healthy);
    assert_eq!(result, Err(NipeError::ConfigError("data directory has no parent: /".to_string())));
    assert!(!asked.iter().any(|e| matches!(e, Effect::CreateDirAll { .. })));
}

#[test]
fn stop_on_a_clean_host_succeeds() {
    for platform in [Platform::Linux, Platform::Windows] {
        let mut engine = engine(platform);
        let first = engine.stop();
        let mut host = |_: &Effect| refused("nothing to remove");
        let (asked, result) = drive(&mut engine, first, &mut host);
        assert_eq!(result, Ok(()), "{:?}", platform);
        assert!(asked.iter().all(|e| !installs(e)));
        assert_eq!(asked.last(), Some(&run("pkill", &["-f", "tor -f /tmp/nipe/torrc"], Meaning::Neutral)));
    }
    let mut engine = engine(Platform::MacOS);
    let first = engine.stop();
    let mut host = |effect: &Effect| match effect {
        Effect::Run { command, .. } if command.program == "route" => {
            ran("   route to: default\n  interface: en0\n")
        }
        Effect::Run { command, .. } if command.args == ["-listallhardwareports"] => {
            ran("Hardware Port: Wi-Fi\nDevice: en0\n")
        }
        Effect::Run { .. } => refused("pfctl: pf not enabled"),
        _ => Reply::Failed("No such file or directory".to_string()),
    };
    let (asked, result) = drive(&mut engine, first, &mut host);
    assert_eq!(result, Ok(()));
    assert_eq!(
        programs(&asked),
        vec!["route", "networksetup", "pfctl", "networksetup", "pfctl", "pkill"]
    );
}

#[test]
fn stop_runs_every_phase_and_reports_the_first_failure() {
    let mut engine = engine(Platform::Linux);
    let first = engine.stop();
    let mut calls = 0;
    let mut host = |_: &Effect| {
        calls += 1;
        Reply::Failed(format!("failure {}", calls))
    };
    let (asked, result) = drive(&mut engine, first, &mut host);
    assert_eq!(result, Err(NipeError::FirewallError("failure 1".to_string())));
    assert_eq!(asked.len(), 5);
    assert_eq!(programs(&asked).last().map(|s| s.as_str()), Some("pkill"));
}

#[test]
fn stop_without_an_interface_still_switches_everything_off() {
    let mut engine = engine(Platform::MacOS);
    let first = engine.stop();
    let mut host = |effect: &Effect| match effect {
        Effect::Run { command, .. } if command.program == "route" => {
            ran("route: writing to routing socket: not in table\n")
        }
        Effect::Run { .. } => refused("nothing to switch off"),
        _ => Reply::Failed("No such file or directory".to_string()),
    };
    let (asked, result) = drive(&mut engine, first, &mut host);
    assert_eq!(result, Ok(()));
    assert_eq!(
        asked,
        vec![
            run("route", &["get", "default"], Meaning::Neutral),
            run("pfctl", &["-d"], Meaning::Clear(nipe::host::Scope::PacketFilter)),
            Effect::RemoveFile { path: "/tmp/nipe_pf.conf".to_string() },
            run("networksetup", &["-setsocksfirewallproxystate", "Wi-Fi", "off"], Meaning::Neutral),
            run("pfctl", &["-d"], Meaning::Clear(nipe::host::Scope::PacketFilter)),
            Effect::RemoveFile { path: "/tmp/nipe_pf.conf".to_string() },
            run("pkill", &["-f", "tor -f /tmp/nipe/torrc"], Meaning::Neutral),
        ]
    );
    let first = engine.stop();
    let (again, result) = drive(&mut engine, first, &mut host);
    assert_eq!(result, Ok(()));
    assert_eq!(again, asked);
}

#[test]
fn start_without_an_interface_fails_at_the_activation() {
    let mut engine = engine(Platform::MacOS);
    let first = engine.start();
    let mut host = |effect: &Effect| match effect {
        Effect::Run { command, .. } if command.program == "route" => ran("no route\n"),
        other => healthy(other),
    };
    let (asked, result) = drive(&mut engine, first, &mut host);
    assert_eq!(result, Err(NipeError::InterfaceNotFound));
    assert!(asked.iter().all(|e| !installs(e)));
    assert!(asked.iter().any(|e| matches!(e, Effect::Spawn { .. })));
    assert_eq!(asked.last(), Some(&Effect::Kill { pid: 4242 }));
}

#[test]
fn fallback_kill_names_the_runtime_configuration_of_the_layout() {
    let mut config = NipeConfig::default();
    config.tor.data_directory = "/var/lib/nipe/data".to_string();
    let mut engine = NipeEngine::new(config, Platform::Windows).unwrap();
    let first = engine.stop();
    let (asked, result) = drive(&mut engine, first, &mut healthy);
    assert_eq!(result, Ok(()));
    assert_eq!(asked.last(), Some(&run("pkill", &["-f", "tor -f /var/lib/nipe/torrc"], Meaning::Neutral)));

    let mut engine = NipeEngine::with_layout(NipeConfig::default(), Platform::Windows, None);
    let first = engine.stop();
    let (asked, result) = drive(&mut engine, first, &mut healthy);
    assert_eq!(result, Ok(()));
    assert_eq!(programs(&asked), vec!["netsh", "netsh"]);
}

#[test]
fn macos_start_finds_the_firewall_once_and_scopes_the_rules() {
    let mut engine = engine(Platform::MacOS);
    let first = engine.start();
    let mut host = |effect: &Effect| match effect {
        Effect::Run { command, .. } if command.program == "route" => {
            ran("   route to: default\ndestination: default\n  interface: en7\n      flags: <UP>\n")
        }
        Effect::Run { command, .. } if command.args == ["-listallhardwareports"] => ran(
            "\nHardware Port: Wi-Fi\nDevice: en0\n\nHardware Port: USB 10/100/1000 LAN\nDevice: en7\nEthernet Address: 00:11\n",
        ),
        other => healthy(other),
    };
    let (asked, result) = drive(&mut engine, first, &mut host);
    assert_eq!(result, Ok(()));
    assert_eq!(programs(&asked).iter().filter(|p| *p == "route").count(), 1);
    let written = asked
        .iter()
        .find_map(|e| match e {
            Effect::WriteFile { path, content } if path == "/tmp/nipe_pf.conf" => Some(content.clone()),
            _ => None,
        })
        .unwrap();
    assert!(written.contains("ext_if = \"en7\"\n"));
    assert!(written.contains("block drop quick inet6 all\n"));
    assert!(asked.contains(&run(
        "networksetup",
        &["-setsocksfirewallproxy", "USB 10/100/1000 LAN", "127.0.0.1", "9050"],
        Meaning::Neutral
    )));
    assert!(written.contains("tor_user = \"112\"\n"));
    assert!(written.contains("-> 127.0.0.1 port 9061\n"));
    assert!(written.contains("-> 127.0.0.1 port 9050\n"));
    let load = asked
        .iter()
        .position(|e| {
            e == &run(
                "pfctl",
                &["-f", "/tmp/nipe_pf.conf"],
                Meaning::Replace(nipe::host::Scope::PacketFilter),
            )
        })
        .unwrap();
    assert_eq!(asked[load + 1], run("pfctl", &["-e"], Meaning::Neutral));
}

#[test]
fn bridges_without_a_plugin_look_for_one() {
    let mut config = NipeConfig::default();
    config.tor.use_bridges = true;
    config.tor.bridges = vec!["obfs4 192.0.2.1:443 cert=abc".to_string()];
    let mut engine = NipeEngine::with_layout(config, Platform::Linux, layout());
    let first = engine.start();
    let mut host = |effect: &Effect| match effect {
        Effect::PathExists { path } => {
            Reply::Exists(path == "/usr/local/bin/obfs4proxy" || path == "/usr/bin/tor")
        }
        other => healthy(other),
    };
    let (asked, result) = drive(&mut engine, first, &mut host);
    assert_eq!(result, Ok(()));
    let probes: Vec<&Effect> = asked.iter().filter(|e| matches!(e, Effect::PathExists { .. })).collect();
    assert_eq!(
        probes,
        vec![
            &Effect::PathExists { path: "/usr/bin/obfs4proxy".to_string() },
            &Effect::PathExists { path: "/usr/local/bin/obfs4proxy".to_string() },
            &Effect::PathExists { path: "/usr/bin/tor".to_string() }
        ]
    );
    let written = asked
        .iter()
        .find_map(|e| match e {
            Effect::WriteFile { content, .. } => Some(content.clone()),
            _ => None,
        })
        .unwrap();
    assert!(written.contains(
        "\n# Bridge Configuration\nUseBridges 1\nClientTransportPlugin obfs4 exec /usr/local/bin/obfs4proxy\nBridge obfs4 192.0.2.1:443 cert=abc\n"
    ));
}

#[test]
fn rotate_connects_once_and_writes_two_lines() {
    let engine = engine(Platform::Linux);
    let mut run = engine.rotate();
    let mut asked = Vec::new();
    while let Some(effect) = run.current() {
        asked.push(effect);
        run.record(&Reply::Done);
    }
    assert_eq!(
        asked,
        vec![
            Effect::Connect { address: "127.0.0.1:9051".to_string() },
            Effect::Send { data: "AUTHENTICATE \"\"\r\n".to_string() },
            Effect::Send { data: "SIGNAL NEWNYM\r\n".to_string() },
        ]
    );
    assert_eq!(run.verdict(), Ok(()));
}

#[test]
fn rotate_stops_at_a_refused_connection() {
    let engine = engine(Platform::Linux);
    let mut run = engine.rotate();
    let mut asked = 0;
    while let Some(_) = run.current() {
        asked += 1;
        run.record(&Reply::Failed("Connection refused (os error 111)".to_string()));
    }
    assert_eq!(asked, 1);
    assert_eq!(
        run.verdict(),
        Err(NipeError::Other(
            "Failed to connect to Tor control port: Connection refused (os error 111)".to_string()
        ))
    );
}

#[test]
fn rotate_reports_a_failed_write_as_io_error() {
    let engine = engine(Platform::Linux);
    let mut run = engine.rotate();
    run.record(&Reply::Done);
    run.record(&Reply::Failed("Broken pipe".to_string()));
    assert!(run.is_finished());
    assert_eq!(run.verdict(), Err(NipeError::IoError("Broken pipe".to_string())));
}

#[test]
fn dropped_engine_kills_the_process_it_still_holds() {
    let mut engine = engine(Platform::Linux);
    assert_eq!(engine.on_drop(), None);
    let mut progress = engine.start();
    loop {
        match progress {
            Progress::Perform(Effect::Fetch { .. }) => break,
            Progress::Perform(effect) => progress = engine.advance(healthy(&effect)),
            Progress::Finished(_) => panic!("ended before the bootstrap"),
        }
    }
    assert_eq!(engine.tor_process(), Some(ProcessHandle { pid: 4242 }));
    assert_eq!(engine.stage(), Stage::Bootstrap);
    assert_eq!(engine.on_drop(), Some(run("kill", &["-9", "4242"], Meaning::Neutral)));
    assert_eq!(engine.tor_process(), None);
    assert_eq!(engine.on_drop(), None);
}

#[test]
fn reply_to_an_idle_engine_changes_nothing() {
    let mut engine = engine(Platform::Linux);
    assert_eq!(engine.advance(Reply::Done), Progress::Finished(Ok(())));
    assert_eq!(engine.stage(), Stage::Idle);
}

#[test]
fn second_start_stops_the_first_process() {
    let mut engine = engine(Platform::Linux);
    let mut progress = engine.start();
    loop {
        match progress {
            Progress::Perform(Effect::Fetch { .. }) => break,
            Progress::Perform(effect) => progress = engine.advance(healthy(&effect)),
            Progress::Finished(_) => panic!("ended before the bootstrap"),
        }
    }
    let first = engine.start();
    let (asked, result) = drive(&mut engine, first, &mut healthy);
    assert_eq!(result, Ok(()));
    assert_eq!(asked[4], Effect::Kill { pid: 4242 });
    assert_eq!(asked.iter().filter(|e| matches!(e, Effect::Spawn { .. })).count(), 1);
}

#[test]
fn process_is_held_until_the_teardown_is_over() {
    let mut engine = engine(Platform::Linux);
    let mut progress = engine.start();
    loop {
        match progress {
            Progress::Perform(Effect::Fetch { .. }) => break,
            Progress::Perform(effect) => progress = engine.advance(healthy(&effect)),
            Progress::Finished(_) => panic!("ended before the bootstrap"),
        }
    }
    let mut progress = engine.stop();
    assert_eq!(engine.stage(), Stage::Teardown);
    assert_eq!(engine.tor_process(), Some(ProcessHandle { pid: 4242 }));
    let mut asked = Vec::new();
    while let Progress::Perform(effect) = progress {
        if effect == (Effect::Kill { pid: 4242 }) {
            assert_eq!(engine.tor_process(), Some(ProcessHandle { pid: 4242 }));
        }
        progress = engine.advance(healthy(&effect));
        asked.push(effect);
    }
    assert_eq!(progress, Progress::Finished(Ok(())));
    assert_eq!(asked.last(), Some(&Effect::Kill { pid: 4242 }));
    assert_eq!(engine.tor_process(), None);
    assert_eq!(engine.on_drop(), None);
}

#[test]
fn failed_kill_is_a_failed_stop() {
    let mut engine = engine(Platform::Linux);
    let mut progress = engine.start();
    loop {
        match progress {
            Progress::Perform(Effect::Fetch { .. }) => break,
            Progress::Perform(effect) => progress = engine.advance(healthy(&effect)),
            Progress::Finished(_) => panic!("ended before the bootstrap"),
        }
    }
    let first = engine.stop();
    let mut host = |effect: &Effect| match effect {
        Effect::Kill { .. } => Reply::Failed("No such process".to_string()),
        other => healthy(other),
    };
    let (_, result) = drive(&mut engine, first, &mut host);
    assert_eq!(result, Err(NipeError::TorStopFailed("No such process".to_string())));
    assert_eq!(engine.tor_process(), None);
}

#[test]
fn every_operation_ends_within_its_budget() {
    for platform in [Platform::Linux, Platform::MacOS, Platform::Windows] {
        let mut engine = engine(platform);
        let first = engine.start();
        let mut host = |effect: &Effect| match effect {
            Effect::Run { .. } => ran(""),
            Effect::Spawn { .. } => Reply::Spawned { pid: 7 },
            Effect::Fetch { .. } => Reply::Failed("unreachable".to_string()),
            _ => Reply::Failed("refused".to_string()),
        };
        let (asked, _) = drive(&mut engine, first, &mut host);
        assert!(asked.len() <= 194, "{:?}: {}", platform, asked.len());
        let first = engine.stop();
        let (asked, _) = drive(&mut engine, first, &mut host);
        assert!(asked.len() <= 11, "{:?}: {}", platform, asked.len());
    }
}
