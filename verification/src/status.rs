//! The answer of the verification endpoint, and what it says of the
//! connection.

use vstd::prelude::*;
use vstd::string::*;
use crate::config::option_text;
use crate::error::{NipeError, NipeErrorView};
use crate::host::{Effect, EffectView, Reply, ReplyView};
use crate::text::{decimal, decimal_string};

verus! {

/// The endpoint that says whether a request reached it through the proxy.
pub open spec fn check_url() -> Seq<char> {
    "https://check.torproject.org/api/ip"@
}

/// The URL of the local proxy on `port`, with names resolved by the proxy.
pub open spec fn proxy_url(port: u16) -> Seq<char> {
    "socks5h://127.0.0.1:"@ + decimal(port as nat)
}

/// The request to the verification endpoint through the proxy on `port`.
pub open spec fn check_request(port: u16, timeout_secs: u64) -> EffectView {
    EffectView::Fetch { url: check_url(), proxy: proxy_url(port), timeout_secs }
}

/// Builds the request to the verification endpoint.
pub fn check_effect(port: u16, timeout_secs: u64) -> (e: Effect)
    ensures
        e@ == check_request(port, timeout_secs),
{
    Effect::Fetch {
        url: String::from_str("https://check.torproject.org/api/ip"),
        proxy: String::from_str("socks5h://127.0.0.1:").concat(decimal_string(port as u64).as_str()),
        timeout_secs,
    }
}

/// What the JSON document `body` holds under the keys `flag` and `text`: the
/// boolean under the first and the string under the second, each as far as the
/// document is an object with such a member; or the parser's message if
/// `body` is no JSON document.
pub uninterp spec fn json_members(body: Seq<char>, flag: Seq<char>, text: Seq<char>) -> Result<
    (Option<bool>, Option<Seq<char>>),
    Seq<char>,
>;

/// The mathematical value of two members read from a document.
pub open spec fn members_view(
    members: Result<(Option<bool>, Option<String>), String>,
) -> Result<(Option<bool>, Option<Seq<char>>), Seq<char>> {
    match members {
        Ok((flag, text)) => Ok((flag, option_text(text))),
        Err(message) => Err(message@),
    }
}

/// Parses `body` with `serde_json::from_str` into a `serde_json::Value` and
/// reads two members with `Value`'s index operator, `as_bool` and `as_str`.
/// The contract claims only that the outcome is a function of the three
/// texts: it gives that function a name and says nothing more of it.
#[verifier::external_body]
fn read_members(body: &str, flag: &str, text: &str) -> (members: Result<
    (Option<bool>, Option<String>),
    String,
>)
    ensures
        members_view(members) == json_members(body@, flag@, text@),
{
    match serde_json::from_str::<serde_json::Value>(body) {
        Ok(document) => Ok(
            (document[flag].as_bool(), document[text].as_str().map(|s| s.to_string())),
        ),
        Err(e) => Err(e.to_string()),
    }
}

/// What is known of the connection.
#[derive(Clone, Debug, PartialEq, Eq)]
pub struct ConnectionStatus {
    pub is_tor: bool,
    pub current_ip: String,
    pub exit_country: Option<String>,
}

/// The mathematical value of a [`ConnectionStatus`].
pub struct ConnectionStatusView {
    pub is_tor: bool,
    pub current_ip: Seq<char>,
    pub exit_country: Option<Seq<char>>,
}

impl View for ConnectionStatus {
    type V = ConnectionStatusView;

    open spec fn view(&self) -> ConnectionStatusView {
        ConnectionStatusView {
            is_tor: self.is_tor,
            current_ip: self.current_ip@,
            exit_country: option_text(self.exit_country),
        }
    }
}

/// The mathematical value of a status or the error in its place.
pub open spec fn status_view(r: Result<ConnectionStatus, NipeError>) -> Result<
    ConnectionStatusView,
    NipeErrorView,
> {
    match r {
        Ok(status) => Ok(status@),
        Err(e) => Err(e@),
    }
}

impl ConnectionStatusView {
    /// The status when the endpoint could not be reached.
    pub open spec fn not_connected(reason: Seq<char>) -> ConnectionStatusView {
        ConnectionStatusView {
            is_tor: false,
            current_ip: "Not Connected ("@ + reason + ")"@,
            exit_country: None,
        }
    }

    /// The status that the members of the endpoint's answer give: anonymous
    /// only if the answer says so, and the address that it names, if any.
    pub open spec fn of_members(
        members: Result<(Option<bool>, Option<Seq<char>>), Seq<char>>,
    ) -> Result<ConnectionStatusView, NipeErrorView> {
        match members {
            Ok((flag, address)) => Ok(
                ConnectionStatusView {
                    is_tor: flag == Some(true),
                    current_ip: match address {
                        Some(a) => a,
                        None => "Unknown"@,
                    },
                    exit_country: None,
                },
            ),
            Err(message) => Err(NipeErrorView::RequestError(message)),
        }
    }

    /// The status that the host's reply to the request gives.
    pub open spec fn of_reply(reply: ReplyView) -> Result<ConnectionStatusView, NipeErrorView> {
        match reply {
            ReplyView::Body(body) => Self::of_members(json_members(body, "IsTor"@, "IP"@)),
            ReplyView::Failed(reason) => Ok(Self::not_connected(reason)),
            _ => Ok(Self::not_connected(Seq::empty())),
        }
    }

    /// The three lines that tell the user of this status.
    pub open spec fn lines(self) -> Seq<Seq<char>> {
        if self.is_tor {
            seq![
                "Status: CONNECTED (ANONYMOUS)"@,
                "Current IP: "@ + self.current_ip,
                "Protection: Kill Switch Active"@,
            ]
        } else {
            seq!["Status: NOT CONNECTED"@, "Current IP: "@ + self.current_ip, "Protection: None"@]
        }
    }
}

/// What a reply to the verification request says of the proxy path: nothing,
/// if the answer confirms it; else why it is not confirmed.
pub open spec fn path_error(reply: ReplyView) -> Option<NipeErrorView> {
    match reply {
        ReplyView::Body(body) => match json_members(body, "IsTor"@, "IP"@) {
            Ok((flag, address)) => if flag == Some(true) {
                None
            } else {
                Some(NipeErrorView::NotConnected)
            },
            Err(message) => Some(NipeErrorView::RequestError(message)),
        },
        ReplyView::Failed(reason) => Some(NipeErrorView::RequestError(reason)),
        _ => Some(NipeErrorView::NotConnected),
    }
}

/// Judges a reply to the verification request: success only if the endpoint
/// answered that the request came through the proxy.
pub fn check_proxy_path(reply: &Reply) -> (r: Result<(), NipeError>)
    ensures
        r is Ok <==> path_error(reply@) is None,
        r is Err ==> Some(r->Err_0@) == path_error(reply@),
{
    match reply {
        Reply::Body(body) => {
            match read_members(body.as_str(), "IsTor", "IP") {
                Ok((flag, address)) => {
                    match flag {
                        Some(true) => Ok(()),
                        _ => Err(NipeError::NotConnected),
                    }
                },
                Err(message) => Err(NipeError::RequestError(message)),
            }
        },
        Reply::Failed(reason) => Err(NipeError::RequestError(reason.clone())),
        _ => Err(NipeError::NotConnected),
    }
}

impl ConnectionStatus {
    /// The request whose reply [`ConnectionStatus::check`] reads: the
    /// verification endpoint through the proxy on its usual port.
    pub fn request() -> (e: Effect)
        ensures
            e@ == check_request(9050, 30),
    {
        check_effect(9050, 30)
    }

    fn not_connected(reason: &str) -> (status: ConnectionStatus)
        ensures
            status@ == ConnectionStatusView::not_connected(reason@),
    {
        let mut text = String::from_str("Not Connected (");
        text.append(reason);
        text.append(")");
        ConnectionStatus { is_tor: false, current_ip: text, exit_country: None }
    }

    /// The status that the members of the endpoint's answer give.
    pub fn from_members(members: Result<(Option<bool>, Option<String>), String>) -> (r: Result<
        ConnectionStatus,
        NipeError,
    >)
        ensures
            status_view(r) == ConnectionStatusView::of_members(members_view(members)),
    {
        match members {
            Ok((flag, address)) => Ok(
                ConnectionStatus {
                    is_tor: match flag {
                        Some(true) => true,
                        _ => false,
                    },
                    current_ip: match address {
                        Some(a) => a,
                        None => String::from_str("Unknown"),
                    },
                    exit_country: None,
                },
            ),
            Err(message) => Err(NipeError::RequestError(message)),
        }
    }

    /// Reads the status from the host's reply to [`ConnectionStatus::request`].
    /// An endpoint that could not be reached gives a status, not an error; an
    /// answer that is no JSON document gives a request error.
    pub fn check(reply: &Reply) -> (r: Result<ConnectionStatus, NipeError>)
        ensures
            status_view(r) == ConnectionStatusView::of_reply(reply@),
    {
        match reply {
            Reply::Body(body) => Self::from_members(read_members(body.as_str(), "IsTor", "IP")),
            Reply::Failed(reason) => Ok(Self::not_connected(reason.as_str())),
            _ => {
                proof {
                    reveal_strlit("");
                }
                assert(""@ =~= Seq::<char>::empty());
                Ok(Self::not_connected(""))
            },
        }
    }

    /// The three lines that tell the user of this status.
    pub fn display(&self) -> (lines: Vec<String>)
        ensures
            crate::text::texts(lines@) == self@.lines(),
    {
        let mut lines: Vec<String> = Vec::new();
        if self.is_tor {
            lines.push(String::from_str("Status: CONNECTED (ANONYMOUS)"));
            lines.push(String::from_str("Current IP: ").concat(self.current_ip.as_str()));
            lines.push(String::from_str("Protection: Kill Switch Active"));
        } else {
            lines.push(String::from_str("Status: NOT CONNECTED"));
            lines.push(String::from_str("Current IP: ").concat(self.current_ip.as_str()));
            lines.push(String::from_str("Protection: None"));
        }
        assert(crate::text::texts(lines@) =~= self@.lines());
        lines
    }
}

} // verus!
