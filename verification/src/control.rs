//! The control channel: a plain text protocol over a local connection, used
//! here for one thing, asking the proxy for a new identity.

use vstd::prelude::*;
use vstd::string::*;
use crate::error::ErrorKind;
use crate::host::{Effect, EffectView};
use crate::plan::{steps_view, Step, StepView, Tolerance};
use crate::text::{decimal, decimal_string};

verus! {

/// The local address of the control port.
pub open spec fn control_address(port: u16) -> Seq<char> {
    "127.0.0.1:"@ + decimal(port as nat)
}

/// The authentication request with an empty credential, as one line.
pub open spec fn authenticate_line() -> Seq<char> {
    "AUTHENTICATE \"\"\r\n"@
}

/// The request for a new identity, as one line.
pub open spec fn newnym_line() -> Seq<char> {
    "SIGNAL NEWNYM\r\n"@
}

/// The rotation of the identity: one connection, the two lines in this
/// order, and nothing is read.
pub open spec fn rotation_steps(port: u16) -> Seq<StepView> {
    seq![
        StepView {
            effect: EffectView::Connect { address: control_address(port) },
            tolerance: Tolerance::Strict,
            kind: ErrorKind::Other,
            context: "Failed to connect to Tor control port: "@,
        },
        StepView {
            effect: EffectView::Send { data: authenticate_line() },
            tolerance: Tolerance::Strict,
            kind: ErrorKind::IoError,
            context: Seq::empty(),
        },
        StepView {
            effect: EffectView::Send { data: newnym_line() },
            tolerance: Tolerance::Strict,
            kind: ErrorKind::IoError,
            context: Seq::empty(),
        },
    ]
}

/// Builds the plan that rotates the identity through the control port.
pub fn rotation_plan(port: u16) -> (plan: Vec<Step>)
    ensures
        steps_view(plan@) == rotation_steps(port),
{
    let address = String::from_str("127.0.0.1:").concat(decimal_string(port as u64).as_str());
    let mut plan: Vec<Step> = Vec::new();
    plan.push(
        Step::strict(
            Effect::Connect { address },
            ErrorKind::Other,
            "Failed to connect to Tor control port: ",
        ),
    );
    plan.push(
        Step::plain(
            Effect::Send { data: String::from_str("AUTHENTICATE \"\"\r\n") },
            Tolerance::Strict,
            ErrorKind::IoError,
        ),
    );
    plan.push(
        Step::plain(
            Effect::Send { data: String::from_str("SIGNAL NEWNYM\r\n") },
            Tolerance::Strict,
            ErrorKind::IoError,
        ),
    );
    assert(steps_view(plan@) =~= rotation_steps(port));
    plan
}

/// Each of the two lines ends with a carriage return and a line feed, and
/// holds no other line end.
pub proof fn lemma_lines_end_with_crlf()
    ensures
        authenticate_line() == "AUTHENTICATE \"\""@ + seq!['\r', '\n'],
        newnym_line() == "SIGNAL NEWNYM"@ + seq!['\r', '\n'],
        !"AUTHENTICATE \"\""@.contains('\n'),
        !"SIGNAL NEWNYM"@.contains('\n'),
{
    reveal_strlit("AUTHENTICATE \"\"\r\n");
    reveal_strlit("SIGNAL NEWNYM\r\n");
    reveal_strlit("AUTHENTICATE \"\"");
    reveal_strlit("SIGNAL NEWNYM");
    assert(authenticate_line() =~= "AUTHENTICATE \"\""@ + seq!['\r', '\n']);
    assert(newnym_line() =~= "SIGNAL NEWNYM"@ + seq!['\r', '\n']);
}

} // verus!
