//! Connection handler decisions: each accepted connection gets exactly one
//! read-classify-respond cycle, and the reaction to every read outcome is a
//! pure function decided here.

use vstd::prelude::*;
use vstd::string::StringExecFns;

verus! {

use crate::classifier::{Classification, spec_classify, spec_is_scan, detect_nmap_scan};

/// Size in bytes of the bounded buffer for a connection's single read; a
/// fragment is at most this long and may be truncated.
pub const READ_BUFFER_LEN: usize = 1024;

/// Why a connection was recorded as a detection.
#[derive(Clone, Copy, Debug, PartialEq, Eq, Structural)]
pub enum DetectionReason {
    /// The request fragment held a configured scanner signature.
    SignatureMatch,
    /// The peer reset the connection before any bytes were read; treated as
    /// a reconnaissance signal in its own right.
    ConnectionReset,
}

/// What the first (and only) read on a connection yielded.
#[derive(Debug)]
pub enum ReadOutcome {
    /// The read succeeded; its bytes, decoded loss-tolerantly into text.
    Received(String),
    /// The read failed with a connection reset by the peer.
    Reset,
    /// The read failed with any other error.
    Failed,
}

/// How the handler reacts before closing the connection: record a detection
/// and send nothing, respond with the fixed payload, or close silently.
#[derive(Clone, Copy, Debug, PartialEq, Eq, Structural)]
pub enum HandlerAction {
    Record(DetectionReason),
    Respond,
    Ignore,
}

/// The decision for a fragment that was successfully read: a scan is
/// recorded and never answered, anything else receives the fixed response.
pub open spec fn spec_decide_fragment(fragment: Seq<char>) -> HandlerAction {
    if spec_is_scan(fragment) {
        HandlerAction::Record(DetectionReason::SignatureMatch)
    } else {
        HandlerAction::Respond
    }
}

/// The decision for every read outcome: a reset counts as a detection even
/// though no bytes were classified; any other read error ends the handler
/// without a response.
pub open spec fn spec_decide(outcome: ReadOutcome) -> HandlerAction {
    match outcome {
        ReadOutcome::Received(fragment) => spec_decide_fragment(fragment@),
        ReadOutcome::Reset => HandlerAction::Record(DetectionReason::ConnectionReset),
        ReadOutcome::Failed => HandlerAction::Ignore,
    }
}

/// Decide how to react to what the first read on a connection yielded.
pub fn decide(outcome: &ReadOutcome) -> (action: HandlerAction)
    ensures
        action == spec_decide(*outcome),
{
    match outcome {
        ReadOutcome::Received(fragment) => {
            if detect_nmap_scan(fragment.as_str()) {
                HandlerAction::Record(DetectionReason::SignatureMatch)
            } else {
                HandlerAction::Respond
            }
        },
        ReadOutcome::Reset => HandlerAction::Record(DetectionReason::ConnectionReset),
        ReadOutcome::Failed => HandlerAction::Ignore,
    }
}

/// The exact bytes sent to a benign peer: a minimal success status line, a
/// blank line, and a fixed short body.
pub open spec fn spec_canned_response() -> Seq<char> {
    "HTTP/1.1 200 OK\r\n\r\nHello, World!"@
}

/// The fixed response payload for the benign path; never templated.
pub fn canned_response() -> (r: &'static str)
    ensures
        r@ == spec_canned_response(),
{
    "HTTP/1.1 200 OK\r\n\r\nHello, World!"
}

/// The audit line's opening words for each detection reason.
pub open spec fn spec_reason_prefix(reason: DetectionReason) -> Seq<char> {
    match reason {
        DetectionReason::SignatureMatch => "Nmap scan detected from "@,
        DetectionReason::ConnectionReset => "Alert: Nmap Scan detected from "@,
    }
}

/// One audit line: the reason's opening words, the peer address, a newline.
pub open spec fn spec_detection_message(peer: Seq<char>, reason: DetectionReason) -> Seq<char> {
    spec_reason_prefix(reason) + peer + "\n"@
}

/// A record of one positively classified connection: the peer it came from
/// and why it was flagged. Append-only once written to the audit log.
#[derive(Debug)]
pub struct DetectionEvent {
    pub peer: String,
    pub reason: DetectionReason,
}

impl DetectionEvent {
    /// A detection event for the given peer address and reason.
    pub fn new(peer: String, reason: DetectionReason) -> (e: DetectionEvent)
        ensures
            e.peer == peer,
            e.reason == reason,
    {
        DetectionEvent { peer, reason }
    }

    /// The single human-readable audit line for this event.
    pub fn message(&self) -> (m: String)
        ensures
            m@ == spec_detection_message(self.peer@, self.reason),
    {
        let mut m = match self.reason {
            DetectionReason::SignatureMatch => String::from_str("Nmap scan detected from "),
            DetectionReason::ConnectionReset => String::from_str("Alert: Nmap Scan detected from "),
        };
        m.append(self.peer.as_str());
        m.append("\n");
        m
    }
}

/// Repeated identical benign requests always produce byte-identical
/// responses: the decision is a function of the fragment's characters
/// alone, and the payload on the benign path is one fixed constant,
/// `spec_canned_response()`.
pub proof fn lemma_benign_response_identical(f1: Seq<char>, f2: Seq<char>)
    requires
        f1 == f2,
        spec_classify(f1) == Classification::Benign,
    ensures
        spec_decide_fragment(f1) == HandlerAction::Respond,
        spec_decide_fragment(f2) == spec_decide_fragment(f1),
{
}

} // verus!
