use nipe::config::NipeConfig;
use nipe::platform::Platform;
use nipe::torrc::{default_plugin, generate_torrc, plugin_candidates};

#[test]
fn default_configuration_is_written_in_full() {
    let config = NipeConfig::default();
    assert_eq!(
        generate_torrc(&config.tor, ""),
        "\n# Nipe Tor Configuration\nSocksPort 9050\nControlPort 9051\nDataDirectory /tmp/nipe/tor-data\n\n# Basic settings\nLog notice stdout\nDisableNetwork 0\n\n# Exit nodes preference (if specified)\n\n"
    );
}

#[test]
fn generating_twice_gives_the_same_bytes() {
    let mut config = NipeConfig::default();
    config.tor.use_bridges = true;
    config.tor.bridges = vec!["obfs4 192.0.2.1:443 A".to_string(), "obfs4 192.0.2.2:443 B".to_string()];
    config.tor.exit_nodes = vec!["us".to_string(), "de".to_string()];
    let first = generate_torrc(&config.tor, "/usr/bin/obfs4proxy");
    let second = generate_torrc(&config.tor.clone(), "/usr/bin/obfs4proxy");
    assert_eq!(first.as_bytes(), second.as_bytes());
}

#[test]
fn exit_nodes_are_restricted_without_strict_mode() {
    let mut config = NipeConfig::default();
    config.tor.exit_nodes = vec!["us".to_string()];
    let text = generate_torrc(&config.tor, "");
    assert!(text.ends_with("\n# Exit nodes preference (if specified)\nExitNodes {us}\n"));
    assert!(!text.contains("StrictNodes"));
    config.tor.exit_nodes = vec!["us".to_string(), "ca".to_string(), "nl".to_string()];
    let text = generate_torrc(&config.tor, "");
    assert!(text.ends_with("\nExitNodes {us,ca,nl}\n"));
    assert!(!text.contains("StrictNodes"));
}

#[test]
fn no_exit_nodes_no_restriction() {
    let text = generate_torrc(&NipeConfig::default().tor, "");
    assert!(!text.contains("ExitNodes"));
    assert!(!text.contains("StrictNodes"));
}

#[test]
fn bridges_are_written_in_order_after_the_plugin() {
    let mut config = NipeConfig::default();
    config.tor.socks_port = 1;
    config.tor.control_port = 65535;
    config.tor.data_directory = "/var/lib/nipe data".to_string();
    config.tor.use_bridges = true;
    config.tor.bridges = vec!["b1".to_string(), "b2".to_string()];
    assert_eq!(
        generate_torrc(&config.tor, "/opt/obfs4"),
        "\n# Nipe Tor Configuration\nSocksPort 1\nControlPort 65535\nDataDirectory /var/lib/nipe data\n\n# Basic settings\nLog notice stdout\nDisableNetwork 0\n\n# Bridge Configuration\nUseBridges 1\nClientTransportPlugin obfs4 exec /opt/obfs4\nBridge b1\nBridge b2\n\n# Exit nodes preference (if specified)\n\n"
    );
}

#[test]
fn bridges_are_left_out_unless_they_are_used() {
    let mut config = NipeConfig::default();
    config.tor.bridges = vec!["b1".to_string()];
    let text = generate_torrc(&config.tor, "/opt/obfs4");
    assert!(!text.contains("Bridge"));
    assert!(!text.contains("obfs4"));
}

#[test]
fn plugin_is_looked_for_where_the_platform_keeps_it() {
    assert_eq!(
        plugin_candidates(Platform::Linux),
        vec!["/usr/bin/obfs4proxy", "/usr/local/bin/obfs4proxy", "/opt/homebrew/bin/obfs4proxy"]
    );
    assert_eq!(plugin_candidates(Platform::MacOS), plugin_candidates(Platform::Linux));
    assert_eq!(
        plugin_candidates(Platform::Windows),
        vec!["C:\\Program Files\\Tor\\obfs4proxy.exe", "C:\\Program Files (x86)\\Tor\\obfs4proxy.exe"]
    );
    assert_eq!(default_plugin(Platform::Linux), "/usr/bin/obfs4proxy");
    assert_eq!(default_plugin(Platform::MacOS), "/usr/bin/obfs4proxy");
    assert_eq!(default_plugin(Platform::Windows), "obfs4proxy.exe");
}
