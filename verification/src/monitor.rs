//! The state behind the dashboard: what it shows and what a key does.
//! Drawing is left to the host.

use vstd::prelude::*;
use vstd::string::*;
use crate::config::{NipeConfig, NipeConfigView};
use crate::error::NipeError;
use crate::status::{ConnectionStatus, ConnectionStatusView};

verus! {

/// How long the dashboard waits for a key before it redraws, in milliseconds.
pub const TICK_MILLIS: u64 = 250;

/// What a key asks for.
#[derive(Clone, Copy, Debug, PartialEq, Eq, Structural)]
pub enum KeyAction {
    /// Leave the dashboard.
    Quit,
    /// Rotate the identity, then check the status again.
    Rotate,
    /// Nothing.
    Ignore,
}

/// The dashboard's state.
#[derive(Debug)]
pub struct Monitor {
    config: NipeConfig,
    status_msg: String,
    ip_info: String,
    is_secure: bool,
}

/// The mathematical value of a [`Monitor`].
pub struct MonitorView {
    pub config: NipeConfigView,
    pub status_msg: Seq<char>,
    pub ip_info: Seq<char>,
    pub is_secure: bool,
}

impl View for Monitor {
    type V = MonitorView;

    closed spec fn view(&self) -> MonitorView {
        MonitorView {
            config: self.config@,
            status_msg: self.status_msg@,
            ip_info: self.ip_info@,
            is_secure: self.is_secure,
        }
    }
}

/// What the dashboard says of a connection.
pub open spec fn verdict_text(is_tor: bool) -> Seq<char> {
    if is_tor {
        "SECURE"@
    } else {
        "UNSECURE"@
    }
}

/// What a key asks for.
pub open spec fn key_action(key: char) -> KeyAction {
    if key == 'q' {
        KeyAction::Quit
    } else if key == 'r' {
        KeyAction::Rotate
    } else {
        KeyAction::Ignore
    }
}

impl MonitorView {
    /// The dashboard before the first check.
    pub open spec fn initial(config: NipeConfigView) -> MonitorView {
        MonitorView { config, status_msg: "Checking..."@, ip_info: "Unknown"@, is_secure: false }
    }

    /// The dashboard after a check that gave `status`.
    pub open spec fn observed(self, status: ConnectionStatusView) -> MonitorView {
        MonitorView {
            status_msg: verdict_text(status.is_tor),
            ip_info: status.current_ip,
            is_secure: status.is_tor,
            ..self
        }
    }

    /// The dashboard after a key.
    pub open spec fn keyed(self, key: char) -> MonitorView {
        if key == 'r' {
            MonitorView { status_msg: "Rotating..."@, ..self }
        } else {
            self
        }
    }
}

impl Monitor {
    /// The dashboard for the configuration that was loaded, or for the
    /// default one where none could be.
    pub fn new(loaded: Option<NipeConfig>) -> (m: Monitor)
        ensures
            m@ == MonitorView::initial(
                match loaded {
                    Some(config) => config@,
                    None => NipeConfigView::default_value(),
                },
            ),
    {
        let config = match loaded {
            Some(config) => config,
            None => NipeConfig::default(),
        };
        Monitor {
            config,
            status_msg: String::from_str("Checking..."),
            ip_info: String::from_str("Unknown"),
            is_secure: false,
        }
    }

    /// Takes the outcome of a status check. A check that failed leaves the
    /// dashboard as it is.
    pub fn observe(&mut self, outcome: &Result<ConnectionStatus, NipeError>)
        ensures
            outcome matches Ok(status) ==> final(self)@ == old(self)@.observed(status@),
            outcome is Err ==> final(self)@ == old(self)@,
    {
        match outcome {
            Ok(status) => {
                self.is_secure = status.is_tor;
                self.ip_info = status.current_ip.clone();
                self.status_msg = if status.is_tor {
                    String::from_str("SECURE")
                } else {
                    String::from_str("UNSECURE")
                };
            },
            Err(_) => {},
        }
    }

    /// Takes a key and says what it asks for.
    pub fn on_key(&mut self, key: char) -> (action: KeyAction)
        ensures
            action == key_action(key),
            final(self)@ == old(self)@.keyed(key),
    {
        if key == 'q' {
            KeyAction::Quit
        } else if key == 'r' {
            self.status_msg = String::from_str("Rotating...");
            KeyAction::Rotate
        } else {
            KeyAction::Ignore
        }
    }

    /// How long to wait for a key when `elapsed_millis` have passed since the
    /// last tick: what is left of the tick, and nothing once it is over.
    pub fn poll_timeout(elapsed_millis: u64) -> (wait: u64)
        ensures
            wait == if elapsed_millis >= TICK_MILLIS {
                0
            } else {
                TICK_MILLIS - elapsed_millis
            },
    {
        if elapsed_millis >= TICK_MILLIS {
            0
        } else {
            TICK_MILLIS - elapsed_millis
        }
    }

    /// Whether a tick is over.
    pub fn tick_due(elapsed_millis: u64) -> (due: bool)
        ensures
            due == (elapsed_millis >= TICK_MILLIS),
    {
        elapsed_millis >= TICK_MILLIS
    }

    /// The configuration that the dashboard was made for.
    pub fn config(&self) -> (c: &NipeConfig)
        ensures
            c@ == self@.config,
    {
        &self.config
    }

    /// What the dashboard says of the connection.
    pub fn status_msg(&self) -> (s: &String)
        ensures
            s@ == self@.status_msg,
    {
        &self.status_msg
    }

    /// The address that the dashboard shows.
    pub fn ip_info(&self) -> (s: &String)
        ensures
            s@ == self@.ip_info,
    {
        &self.ip_info
    }

    /// Whether the last check found the connection anonymous.
    pub fn is_secure(&self) -> (b: bool)
        ensures
            b == self@.is_secure,
    {
        self.is_secure
    }
}

} // verus!
