//! The generator of the proxy's runtime configuration.
//!
//! The text is a function of the configuration and of the transport plugin
//! that was chosen for it, and of nothing else.

use vstd::prelude::*;
use vstd::string::*;
use crate::config::{TorConfig, TorConfigView};
use crate::platform::{strings, Platform};
use crate::text::{decimal, decimal_string, join, join_strings, texts};

verus! {

/// One line for each bridge, in the order given.
pub open spec fn bridge_lines(bridges: Seq<Seq<char>>) -> Seq<char>
    decreases bridges.len(),
{
    if bridges.len() == 0 {
        Seq::empty()
    } else {
        bridge_lines(bridges.drop_last()) + "Bridge "@ + bridges.last() + "\n"@
    }
}

/// The part of the configuration on bridges: nothing unless bridges are used;
/// else the directive that switches them on, the transport plugin, and the
/// bridges.
pub open spec fn bridge_section(tor: TorConfigView, plugin: Seq<char>) -> Seq<char> {
    if tor.use_bridges {
        "\n# Bridge Configuration\nUseBridges 1\n"@ + "ClientTransportPlugin obfs4 exec "@ + plugin
            + "\n"@ + bridge_lines(tor.bridges)
    } else {
        Seq::empty()
    }
}

/// The restriction of the exit nodes: none where no node is named, else the
/// set of the nodes named. No other directive goes with it.
pub open spec fn exit_section(tor: TorConfigView) -> Seq<char> {
    if tor.exit_nodes.len() == 0 {
        Seq::empty()
    } else {
        "ExitNodes {"@ + join(tor.exit_nodes, ","@) + "}"@
    }
}

/// The text of the runtime configuration.
pub open spec fn torrc_text(tor: TorConfigView, plugin: Seq<char>) -> Seq<char> {
    "\n# Nipe Tor Configuration\nSocksPort "@ + decimal(tor.socks_port as nat) + "\nControlPort "@
        + decimal(tor.control_port as nat) + "\nDataDirectory "@ + tor.data_directory
        + "\n\n# Basic settings\nLog notice stdout\nDisableNetwork 0\n"@ + bridge_section(
        tor,
        plugin,
    ) + "\n# Exit nodes preference (if specified)\n"@ + exit_section(tor) + "\n"@
}

/// Whether a transport plugin has to be looked for on the host: bridges are
/// used and the configuration names no plugin.
pub open spec fn plugin_wanted(tor: TorConfigView) -> bool {
    tor.use_bridges && tor.client_transport_plugin is None
}

/// The places where the transport plugin is looked for, in order.
pub open spec fn plugin_places(platform: Platform) -> Seq<Seq<char>> {
    match platform {
        Platform::Windows => seq![
            "C:\\Program Files\\Tor\\obfs4proxy.exe"@,
            "C:\\Program Files (x86)\\Tor\\obfs4proxy.exe"@,
        ],
        _ => seq![
            "/usr/bin/obfs4proxy"@,
            "/usr/local/bin/obfs4proxy"@,
            "/opt/homebrew/bin/obfs4proxy"@,
        ],
    }
}

/// The transport plugin that is named where none is found.
pub open spec fn plugin_fallback(platform: Platform) -> Seq<char> {
    match platform {
        Platform::Windows => "obfs4proxy.exe"@,
        _ => "/usr/bin/obfs4proxy"@,
    }
}

/// The places where the transport plugin is looked for, in order.
pub fn plugin_candidates(platform: Platform) -> (places: Vec<String>)
    ensures
        texts(places@) == plugin_places(platform),
{
    match platform {
        Platform::Windows => {
            let places = strings(
                &[
                    "C:\\Program Files\\Tor\\obfs4proxy.exe",
                    "C:\\Program Files (x86)\\Tor\\obfs4proxy.exe",
                ],
            );
            assert(texts(places@) =~= plugin_places(platform));
            places
        },
        _ => {
            let places = strings(
                &["/usr/bin/obfs4proxy", "/usr/local/bin/obfs4proxy", "/opt/homebrew/bin/obfs4proxy"],
            );
            assert(texts(places@) =~= plugin_places(platform));
            places
        },
    }
}

/// The transport plugin that is named where none is found.
pub fn default_plugin(platform: Platform) -> (plugin: String)
    ensures
        plugin@ == plugin_fallback(platform),
{
    match platform {
        Platform::Windows => String::from_str("obfs4proxy.exe"),
        _ => String::from_str("/usr/bin/obfs4proxy"),
    }
}

fn bridge_lines_text(bridges: &Vec<String>) -> (s: String)
    ensures
        s@ == bridge_lines(texts(bridges@)),
{
    let mut s = String::new();
    let mut i: usize = 0;
    assert(texts(bridges@).take(0) =~= Seq::<Seq<char>>::empty());
    while i < bridges.len()
        invariant
            i <= bridges.len(),
            s@ == bridge_lines(texts(bridges@).take(i as int)),
        decreases bridges.len() - i,
    {
        let ghost before = texts(bridges@).take(i as int);
        let ghost after = texts(bridges@).take(i + 1);
        assert(after.drop_last() =~= before);
        assert(after.last() == bridges@[i as int]@);
        s.append("Bridge ");
        s.append(bridges[i].as_str());
        s.append("\n");
        assert(s@ =~= bridge_lines(after));
        i = i + 1;
    }
    assert(texts(bridges@).take(i as int) =~= texts(bridges@));
    s
}

/// Writes the runtime configuration for `tor`, with `plugin` as the transport
/// plugin where bridges are used.
pub fn generate_torrc(tor: &TorConfig, plugin: &str) -> (text: String)
    ensures
        text@ == torrc_text(tor@, plugin@),
{
    let mut text = String::from_str("\n# Nipe Tor Configuration\nSocksPort ");
    text.append(decimal_string(tor.socks_port as u64).as_str());
    text.append("\nControlPort ");
    text.append(decimal_string(tor.control_port as u64).as_str());
    text.append("\nDataDirectory ");
    text.append(tor.data_directory.as_str());
    text.append("\n\n# Basic settings\nLog notice stdout\nDisableNetwork 0\n");
    if tor.use_bridges {
        let ghost before = text@;
        text.append("\n# Bridge Configuration\nUseBridges 1\n");
        text.append("ClientTransportPlugin obfs4 exec ");
        text.append(plugin);
        text.append("\n");
        text.append(bridge_lines_text(&tor.bridges).as_str());
        assert(text@ =~= before + bridge_section(tor@, plugin@));
    } else {
        assert(text@ + bridge_section(tor@, plugin@) =~= text@);
    }
    text.append("\n# Exit nodes preference (if specified)\n");
    if tor.exit_nodes.len() > 0 {
        let ghost before = text@;
        text.append("ExitNodes {");
        text.append(join_strings(&tor.exit_nodes, ",").as_str());
        text.append("}");
        assert(text@ =~= before + exit_section(tor@));
    } else {
        assert(text@ + exit_section(tor@) =~= text@);
    }
    text.append("\n");
    text
}

/// Generating twice from the same configuration gives the same text, and so
/// the same bytes.
pub proof fn lemma_generation_is_repeatable(
    first: TorConfigView,
    second: TorConfigView,
    first_plugin: Seq<char>,
    second_plugin: Seq<char>,
)
    requires
        first == second,
        first_plugin == second_plugin,
    ensures
        torrc_text(first, first_plugin) == torrc_text(second, second_plugin),
        vstd::utf8::encode_utf8(torrc_text(first, first_plugin)) == vstd::utf8::encode_utf8(
            torrc_text(second, second_plugin),
        ),
{
}

/// Where exit nodes are named, the text ends with their restriction and a
/// line end, and the restriction names exactly those nodes.
pub proof fn lemma_exit_restriction_closes_the_text(tor: TorConfigView, plugin: Seq<char>)
    requires
        tor.exit_nodes.len() > 0,
    ensures
        exit_section(tor) == "ExitNodes {"@ + join(tor.exit_nodes, ","@) + "}"@,
        torrc_text(tor, plugin).len() >= exit_section(tor).len() + 1,
        torrc_text(tor, plugin).subrange(
            torrc_text(tor, plugin).len() - exit_section(tor).len() - 1,
            torrc_text(tor, plugin).len() as int,
        ) == exit_section(tor) + "\n"@,
{
    reveal_strlit("\n");
    let text = torrc_text(tor, plugin);
    let tail = exit_section(tor) + "\n"@;
    let head = text.subrange(0, text.len() - tail.len());
    assert(text =~= head + tail);
    assert(text.subrange(text.len() - tail.len(), text.len() as int) =~= tail);
}

} // verus!
