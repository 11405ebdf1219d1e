//! The failure taxonomy of the engine.

use vstd::prelude::*;
use vstd::string::*;

verus! {

/// Everything that can go wrong, with the upstream text where there is one.
#[derive(Clone, Debug, PartialEq, Eq)]
pub enum NipeError {
    TorStartFailed(String),
    TorStopFailed(String),
    BootstrapTimeout,
    NotConnected,
    FirewallError(String),
    InterfaceNotFound,
    ConfigError(String),
    IoError(String),
    RequestError(String),
    Other(String),
}

/// The mathematical value of a [`NipeError`].
pub enum NipeErrorView {
    TorStartFailed(Seq<char>),
    TorStopFailed(Seq<char>),
    BootstrapTimeout,
    NotConnected,
    FirewallError(Seq<char>),
    InterfaceNotFound,
    ConfigError(Seq<char>),
    IoError(Seq<char>),
    RequestError(Seq<char>),
    Other(Seq<char>),
}

/// The kinds of error that carry a reason.
#[derive(Clone, Copy, Debug, PartialEq, Eq, Structural)]
pub enum ErrorKind {
    TorStartFailed,
    TorStopFailed,
    FirewallError,
    ConfigError,
    IoError,
    RequestError,
    Other,
}

impl View for NipeError {
    type V = NipeErrorView;

    open spec fn view(&self) -> NipeErrorView {
        match self {
            NipeError::TorStartFailed(s) => NipeErrorView::TorStartFailed(s@),
            NipeError::TorStopFailed(s) => NipeErrorView::TorStopFailed(s@),
            NipeError::BootstrapTimeout => NipeErrorView::BootstrapTimeout,
            NipeError::NotConnected => NipeErrorView::NotConnected,
            NipeError::FirewallError(s) => NipeErrorView::FirewallError(s@),
            NipeError::InterfaceNotFound => NipeErrorView::InterfaceNotFound,
            NipeError::ConfigError(s) => NipeErrorView::ConfigError(s@),
            NipeError::IoError(s) => NipeErrorView::IoError(s@),
            NipeError::RequestError(s) => NipeErrorView::RequestError(s@),
            NipeError::Other(s) => NipeErrorView::Other(s@),
        }
    }
}

impl NipeErrorView {
    /// The error of the given kind with the given reason.
    pub open spec fn of_kind(kind: ErrorKind, reason: Seq<char>) -> NipeErrorView {
        match kind {
            ErrorKind::TorStartFailed => NipeErrorView::TorStartFailed(reason),
            ErrorKind::TorStopFailed => NipeErrorView::TorStopFailed(reason),
            ErrorKind::FirewallError => NipeErrorView::FirewallError(reason),
            ErrorKind::ConfigError => NipeErrorView::ConfigError(reason),
            ErrorKind::IoError => NipeErrorView::IoError(reason),
            ErrorKind::RequestError => NipeErrorView::RequestError(reason),
            ErrorKind::Other => NipeErrorView::Other(reason),
        }
    }

    /// The text shown to the user for this error.
    pub open spec fn message(self) -> Seq<char> {
        match self {
            NipeErrorView::TorStartFailed(s) => "Tor process failed to start: "@ + s,
            NipeErrorView::TorStopFailed(s) => "Tor process failed to stop: "@ + s,
            NipeErrorView::BootstrapTimeout => "Tor bootstrap timeout"@,
            NipeErrorView::NotConnected => "Not connected to Tor network"@,
            NipeErrorView::FirewallError(s) => "Firewall configuration failed: "@ + s,
            NipeErrorView::InterfaceNotFound => "Network interface not found"@,
            NipeErrorView::ConfigError(s) => "Configuration error: "@ + s,
            NipeErrorView::IoError(s) => "I/O error: "@ + s,
            NipeErrorView::RequestError(s) => "Request error: "@ + s,
            NipeErrorView::Other(s) => "Other error: "@ + s,
        }
    }
}

impl NipeError {
    /// Builds the error of the given kind around `reason`.
    pub fn of_kind(kind: ErrorKind, reason: String) -> (e: NipeError)
        ensures
            e@ == NipeErrorView::of_kind(kind, reason@),
    {
        match kind {
            ErrorKind::TorStartFailed => NipeError::TorStartFailed(reason),
            ErrorKind::TorStopFailed => NipeError::TorStopFailed(reason),
            ErrorKind::FirewallError => NipeError::FirewallError(reason),
            ErrorKind::ConfigError => NipeError::ConfigError(reason),
            ErrorKind::IoError => NipeError::IoError(reason),
            ErrorKind::RequestError => NipeError::RequestError(reason),
            ErrorKind::Other => NipeError::Other(reason),
        }
    }

    /// The text shown to the user for this error.
    pub fn message(&self) -> (m: String)
        ensures
            m@ == self@.message(),
    {
        match self {
            NipeError::TorStartFailed(s) => String::from_str("Tor process failed to start: ").concat(
                s.as_str(),
            ),
            NipeError::TorStopFailed(s) => String::from_str("Tor process failed to stop: ").concat(
                s.as_str(),
            ),
            NipeError::BootstrapTimeout => String::from_str("Tor bootstrap timeout"),
            NipeError::NotConnected => String::from_str("Not connected to Tor network"),
            NipeError::FirewallError(s) => String::from_str("Firewall configuration failed: ").concat(
                s.as_str(),
            ),
            NipeError::InterfaceNotFound => String::from_str("Network interface not found"),
            NipeError::ConfigError(s) => String::from_str("Configuration error: ").concat(s.as_str()),
            NipeError::IoError(s) => String::from_str("I/O error: ").concat(s.as_str()),
            NipeError::RequestError(s) => String::from_str("Request error: ").concat(s.as_str()),
            NipeError::Other(s) => String::from_str("Other error: ").concat(s.as_str()),
        }
    }

    /// A copy of this error.
    pub fn duplicate(&self) -> (e: NipeError)
        ensures
            e@ == self@,
    {
        match self {
            NipeError::TorStartFailed(s) => NipeError::TorStartFailed(s.clone()),
            NipeError::TorStopFailed(s) => NipeError::TorStopFailed(s.clone()),
            NipeError::BootstrapTimeout => NipeError::BootstrapTimeout,
            NipeError::NotConnected => NipeError::NotConnected,
            NipeError::FirewallError(s) => NipeError::FirewallError(s.clone()),
            NipeError::InterfaceNotFound => NipeError::InterfaceNotFound,
            NipeError::ConfigError(s) => NipeError::ConfigError(s.clone()),
            NipeError::IoError(s) => NipeError::IoError(s.clone()),
            NipeError::RequestError(s) => NipeError::RequestError(s.clone()),
            NipeError::Other(s) => NipeError::Other(s.clone()),
        }
    }
}

} // verus!
