//! The configuration that the engine is given for one operation.

use vstd::prelude::*;
use vstd::string::*;
use crate::text::texts;

verus! {

/// How the proxy is run.
#[derive(Clone, Debug, PartialEq, Eq)]
pub struct TorConfig {
    pub socks_port: u16,
    pub control_port: u16,
    pub dns_port: u16,
    /// The directory in which the proxy keeps its state. The runtime
    /// configuration and the log are written beside it.
    pub data_directory: String,
    pub use_bridges: bool,
    /// The program that speaks the bridges' transport, if one is chosen.
    pub client_transport_plugin: Option<String>,
    /// The bridges, in the order in which they are written.
    pub bridges: Vec<String>,
    /// The countries or nodes that traffic may leave through.
    pub exit_nodes: Vec<String>,
}

/// What is asked of the firewall.
#[derive(Clone, Copy, Debug, PartialEq, Eq, Structural)]
pub struct FirewallConfig {
    pub enable_kill_switch: bool,
    pub allow_lan: bool,
    pub block_ipv6: bool,
}

/// Whether and how often the identity is rotated.
#[derive(Clone, Copy, Debug, PartialEq, Eq, Structural)]
pub struct RotationConfig {
    pub auto_rotate: bool,
    pub interval_seconds: u64,
}

/// The whole configuration.
#[derive(Clone, Debug, PartialEq, Eq)]
pub struct NipeConfig {
    pub tor: TorConfig,
    pub firewall: FirewallConfig,
    pub rotation: RotationConfig,
}

/// The mathematical value of a [`TorConfig`].
pub struct TorConfigView {
    pub socks_port: u16,
    pub control_port: u16,
    pub dns_port: u16,
    pub data_directory: Seq<char>,
    pub use_bridges: bool,
    pub client_transport_plugin: Option<Seq<char>>,
    pub bridges: Seq<Seq<char>>,
    pub exit_nodes: Seq<Seq<char>>,
}

/// The mathematical value of a [`NipeConfig`].
pub struct NipeConfigView {
    pub tor: TorConfigView,
    pub firewall: FirewallConfig,
    pub rotation: RotationConfig,
}

/// The text of an optional string.
pub open spec fn option_text(s: Option<String>) -> Option<Seq<char>> {
    match s {
        Some(s) => Some(s@),
        None => None,
    }
}

impl View for TorConfig {
    type V = TorConfigView;

    open spec fn view(&self) -> TorConfigView {
        TorConfigView {
            socks_port: self.socks_port,
            control_port: self.control_port,
            dns_port: self.dns_port,
            data_directory: self.data_directory@,
            use_bridges: self.use_bridges,
            client_transport_plugin: option_text(self.client_transport_plugin),
            bridges: texts(self.bridges@),
            exit_nodes: texts(self.exit_nodes@),
        }
    }
}

impl View for NipeConfig {
    type V = NipeConfigView;

    open spec fn view(&self) -> NipeConfigView {
        NipeConfigView { tor: self.tor@, firewall: self.firewall, rotation: self.rotation }
    }
}

impl NipeConfigView {
    /// The configuration that is used where none is given.
    pub open spec fn default_value() -> NipeConfigView {
        NipeConfigView {
            tor: TorConfigView {
                socks_port: 9050,
                control_port: 9051,
                dns_port: 9061,
                data_directory: "/tmp/nipe/tor-data"@,
                use_bridges: false,
                client_transport_plugin: None,
                bridges: Seq::empty(),
                exit_nodes: Seq::empty(),
            },
            firewall: FirewallConfig { enable_kill_switch: true, allow_lan: true, block_ipv6: true },
            rotation: RotationConfig { auto_rotate: true, interval_seconds: 60 },
        }
    }
}

impl Default for NipeConfig {
    fn default() -> (config: NipeConfig)
        ensures
            config@ == NipeConfigView::default_value(),
    {
        let config = NipeConfig {
            tor: TorConfig {
                socks_port: 9050,
                control_port: 9051,
                dns_port: 9061,
                data_directory: String::from_str("/tmp/nipe/tor-data"),
                use_bridges: false,
                client_transport_plugin: None,
                bridges: Vec::new(),
                exit_nodes: Vec::new(),
            },
            firewall: FirewallConfig { enable_kill_switch: true, allow_lan: true, block_ipv6: true },
            rotation: RotationConfig { auto_rotate: true, interval_seconds: 60 },
        };
        assert(config@.tor.bridges =~= Seq::<Seq<char>>::empty());
        assert(config@.tor.exit_nodes =~= Seq::<Seq<char>>::empty());
        config
    }
}

} // verus!
