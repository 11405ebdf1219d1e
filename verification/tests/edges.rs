use nipe::config::NipeConfig;
use nipe::error::{ErrorKind, NipeError};
use nipe::host::{Command, Reply};
use nipe::installer::Installer;
use nipe::monitor::{KeyAction, Monitor};
use nipe::platform::Platform;
use nipe::status::ConnectionStatus;

fn ran(success: bool) -> Reply {
    Reply::Exited { success, stdout: "/usr/bin/tor\n".to_string(), stderr: String::new() }
}

#[test]
fn default_configuration_has_the_usual_ports() {
    let config = NipeConfig::default();
    assert_eq!(config.tor.socks_port, 9050);
    assert_eq!(config.tor.control_port, 9051);
    assert_eq!(config.tor.dns_port, 9061);
    assert_eq!(config.tor.data_directory, "/tmp/nipe/tor-data");
    assert!(!config.tor.use_bridges);
    assert_eq!(config.tor.client_transport_plugin, None);
    assert!(config.tor.bridges.is_empty());
    assert!(config.tor.exit_nodes.is_empty());
    assert!(config.firewall.enable_kill_switch);
    assert!(config.firewall.allow_lan);
    assert!(config.firewall.block_ipv6);
    assert!(config.rotation.auto_rotate);
    assert_eq!(config.rotation.interval_seconds, 60);
}

#[test]
fn every_error_has_its_message() {
    let cases = vec![
        (NipeError::TorStartFailed("a".to_string()), "Tor process failed to start: a"),
        (NipeError::TorStopFailed("b".to_string()), "Tor process failed to stop: b"),
        (NipeError::BootstrapTimeout, "Tor bootstrap timeout"),
        (NipeError::NotConnected, "Not connected to Tor network"),
        (NipeError::FirewallError("c".to_string()), "Firewall configuration failed: c"),
        (NipeError::InterfaceNotFound, "Network interface not found"),
        (NipeError::ConfigError("d".to_string()), "Configuration error: d"),
        (NipeError::IoError("e".to_string()), "I/O error: e"),
        (NipeError::RequestError("f".to_string()), "Request error: f"),
        (NipeError::Other("g".to_string()), "Other error: g"),
    ];
    for (error, message) in cases {
        assert_eq!(error.message(), message);
        assert_eq!(error.duplicate(), error);
    }
}

#[test]
fn errors_are_built_by_kind() {
    let reason = || "r".to_string();
    assert_eq!(NipeError::of_kind(ErrorKind::TorStartFailed, reason()), NipeError::TorStartFailed(reason()));
    assert_eq!(NipeError::of_kind(ErrorKind::TorStopFailed, reason()), NipeError::TorStopFailed(reason()));
    assert_eq!(NipeError::of_kind(ErrorKind::FirewallError, reason()), NipeError::FirewallError(reason()));
    assert_eq!(NipeError::of_kind(ErrorKind::ConfigError, reason()), NipeError::ConfigError(reason()));
    assert_eq!(NipeError::of_kind(ErrorKind::IoError, reason()), NipeError::IoError(reason()));
    assert_eq!(NipeError::of_kind(ErrorKind::RequestError, reason()), NipeError::RequestError(reason()));
    assert_eq!(NipeError::of_kind(ErrorKind::Other, reason()), NipeError::Other(reason()));
}

#[test]
fn availability_is_asked_of_the_platforms_finder() {
    assert_eq!(
        Installer::availability_query(Platform::Linux, "tor"),
        Command { program: "which".to_string(), args: vec!["tor".to_string()] }
    );
    assert_eq!(
        Installer::availability_query(Platform::MacOS, "obfs4proxy"),
        Command { program: "which".to_string(), args: vec!["obfs4proxy".to_string()] }
    );
    assert_eq!(
        Installer::availability_query(Platform::Windows, "tor"),
        Command { program: "where".to_string(), args: vec!["tor".to_string()] }
    );
}

#[test]
fn command_is_available_only_when_the_query_succeeded() {
    assert!(Installer::is_command_available(&ran(true)));
    assert!(!Installer::is_command_available(&ran(false)));
    assert!(!Installer::is_command_available(&Reply::Failed("no which".to_string())));
    assert!(!Installer::is_command_available(&Reply::Done));
    assert!(Installer::is_tor_installed(&ran(true)));
    assert!(!Installer::is_tor_installed(&ran(false)));
}

#[test]
fn missing_plugin_is_reported() {
    assert_eq!(Installer::check_obfs4proxy(&ran(true)), Ok(()));
    assert_eq!(
        Installer::check_obfs4proxy(&ran(false)),
        Err(NipeError::Other("obfs4proxy not found".to_string()))
    );
}

#[test]
fn installed_proxy_needs_no_installation() {
    for platform in [Platform::Linux, Platform::MacOS, Platform::Windows] {
        assert_eq!(Installer::check_and_install_tor(platform, &ran(true)), Ok(Vec::new()));
    }
}

#[test]
fn missing_proxy_is_installed_where_a_package_manager_is_known() {
    let lines = |platform: Platform| -> Vec<String> {
        Installer::check_and_install_tor(platform, &ran(false))
            .unwrap()
            .iter()
            .map(|step| match &step.effect {
                nipe::host::Effect::Run { command, .. } => {
                    format!("{} {}", command.program, command.args.join(" "))
                }
                other => format!("{:?}", other),
            })
            .collect()
    };
    assert_eq!(lines(Platform::Linux), vec!["apt-get install -y tor"]);
    assert_eq!(lines(Platform::MacOS), vec!["which brew", "brew install tor"]);
    assert_eq!(Installer::install_tor(Platform::Linux), Installer::check_and_install_tor(Platform::Linux, &ran(false)));
    let linux = Installer::install_tor(Platform::Linux).unwrap();
    assert!(linux[0].context.starts_with("Failed to auto-install Tor. Please install manually:\nDebian/Ubuntu: sudo apt-get install tor\n"));
    let macos = Installer::install_tor(Platform::MacOS).unwrap();
    assert!(macos[0].context.starts_with("Homebrew not found. Please install Homebrew first:\n/bin/bash -c "));
    assert!(macos[1].context.starts_with("Failed to install Tor via Homebrew"));
    match Installer::install_tor(Platform::Windows) {
        Err(NipeError::Other(message)) => {
            assert!(message.starts_with("Automatic Tor installation is not supported on Windows."))
        }
        other => panic!("unexpected: {:?}", other),
    }
}

#[test]
fn monitor_starts_with_the_loaded_or_the_default_configuration() {
    let monitor = Monitor::new(None);
    assert_eq!(monitor.config(), &NipeConfig::default());
    assert_eq!(monitor.status_msg(), "Checking...");
    assert_eq!(monitor.ip_info(), "Unknown");
    assert!(!monitor.is_secure());
    let mut config = NipeConfig::default();
    config.tor.socks_port = 9150;
    let monitor = Monitor::new(Some(config.clone()));
    assert_eq!(monitor.config(), &config);
}

#[test]
fn monitor_shows_what_the_check_found() {
    let mut monitor = Monitor::new(None);
    monitor.observe(&ConnectionStatus::check(&Reply::Body("{\"IsTor\":true,\"IP\":\"10.1.1.1\"}".to_string())));
    assert_eq!(monitor.status_msg(), "SECURE");
    assert_eq!(monitor.ip_info(), "10.1.1.1");
    assert!(monitor.is_secure());
    monitor.observe(&Err(NipeError::RequestError("x".to_string())));
    assert_eq!(monitor.status_msg(), "SECURE");
    assert!(monitor.is_secure());
    monitor.observe(&ConnectionStatus::check(&Reply::Failed("down".to_string())));
    assert_eq!(monitor.status_msg(), "UNSECURE");
    assert_eq!(monitor.ip_info(), "Not Connected (down)");
    assert!(!monitor.is_secure());
}

#[test]
fn monitor_reads_its_two_keys() {
    let mut monitor = Monitor::new(None);
    assert_eq!(monitor.on_key('x'), KeyAction::Ignore);
    assert_eq!(monitor.on_key('Q'), KeyAction::Ignore);
    assert_eq!(monitor.status_msg(), "Checking...");
    assert_eq!(monitor.on_key('r'), KeyAction::Rotate);
    assert_eq!(monitor.status_msg(), "Rotating...");
    assert_eq!(monitor.on_key('q'), KeyAction::Quit);
    assert_eq!(monitor.status_msg(), "Rotating...");
}

#[test]
fn monitor_waits_for_what_is_left_of_the_tick() {
    assert_eq!(Monitor::poll_timeout(0), 250);
    assert_eq!(Monitor::poll_timeout(100), 150);
    assert_eq!(Monitor::poll_timeout(250), 0);
    assert_eq!(Monitor::poll_timeout(u64::MAX), 0);
    assert!(!Monitor::tick_due(249));
    assert!(Monitor::tick_due(250));
}
