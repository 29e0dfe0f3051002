//! The listener state machine. A listener is idle until a transport is bound,
//! listens until an inbound payload carries the authentication marker, and is
//! bound to that peer while an interact session runs. The surrounding program
//! owns the socket and the loop; every decision — stop, accept, ignore — is
//! taken here, one poll at a time.

use vstd::prelude::*;
use vstd::string::StrSliceExecFns;
use vstd::string::StringExecFns;
use vstd::utf8::encode_utf8;
use crate::decimal::dec_chars;
use crate::decimal::u64_to_string;
use crate::handshake::contains_marker;
use crate::handshake::spec_contains_marker;
use crate::mailbox::SharedBuffer;
use crate::CoreError;
use crate::CC_INFO;
use crate::CC_STOP;

verus! {

/// Lifecycle phase of a listener.
#[derive(Debug, Clone, Copy, PartialEq, Eq)]
pub enum Status {
    /// No transport bound.
    Idle,
    /// Transport bound, waiting for a handshake.
    Listening,
    /// Actively brokering a connected peer.
    Bound,
}

/// Which transport the listener's socket speaks. The HTTP and DNS adapters
/// layer an encode/decode pair over these two.
#[derive(Debug, Clone, Copy, PartialEq, Eq)]
pub enum TransportKind {
    Udp,
    Tcp,
}

/// A listener: an identity, a lifecycle phase, and the kind of transport it
/// holds while not idle. The socket itself lives with the program that runs
/// the loop; this value is the state every decision is taken against.
#[derive(Debug, Clone, Copy, PartialEq, Eq)]
pub struct Listener {
    /// Opaque identity, assigned at creation, never changed.
    pub id: u64,
    /// Lifecycle phase.
    pub status: Status,
    /// The bound transport's kind; `None` exactly while idle.
    pub transport: Option<TransportKind>,
}

impl Listener {
    /// A listener owns a transport exactly while it is not idle.
    pub open spec fn wf(&self) -> bool {
        (self.transport is Some) <==> !(self.status is Idle)
    }
}

/// Creates an idle listener with identity `i`.
pub fn new_lsn(i: u64) -> (lsn: Listener)
    ensures
        lsn.id == i,
        lsn.status is Idle,
        lsn.transport is None,
        lsn.wf(),
{
    Listener { id: i, status: Status::Idle, transport: None }
}

/// The transport behind a protocol name: UDP carries the plain and the DNS
/// framing, TCP carries the plain and the HTTP framing; any other name is
/// refused rather than guessed.
pub open spec fn spec_transport_for_protocol(name: Seq<char>) -> Result<TransportKind, CoreError> {
    if name == "udp"@ || name == "dns"@ {
        Ok(TransportKind::Udp)
    } else if name == "tcp"@ || name == "http"@ {
        Ok(TransportKind::Tcp)
    } else {
        Err(CoreError::UnsupportedProtocol)
    }
}

/// Compares a protocol name against one all-ASCII candidate.
fn str_equals(name: &str, candidate: &str) -> (r: bool)
    requires
        candidate.is_ascii(),
    ensures
        r == (name@ == candidate@),
{
    let n = name.unicode_len();
    if n != candidate.unicode_len() {
        return false;
    }
    let mut i: usize = 0;
    while i < n
        invariant
            0 <= i <= n,
            n == name@.len(),
            n == candidate@.len(),
            candidate.is_ascii(),
            forall|k: int| 0 <= k < i ==> name@[k] == candidate@[k],
        decreases n - i,
    {
        if name.get_char(i) != candidate.get_char(i) {
            return false;
        }
        i = i + 1;
    }
    proof {
        assert(name@ =~= candidate@);
    }
    true
}

/// Maps a protocol name to the transport that carries it; the decision behind
/// starting a listener run.
pub fn transport_for_protocol(protocol: &str) -> (r: Result<TransportKind, CoreError>)
    ensures
        r == spec_transport_for_protocol(protocol@),
{
    proof {
        reveal_strlit("udp");
        reveal_strlit("dns");
        reveal_strlit("tcp");
        reveal_strlit("http");
    }
    if str_equals(protocol, "udp") || str_equals(protocol, "dns") {
        Ok(TransportKind::Udp)
    } else if str_equals(protocol, "tcp") || str_equals(protocol, "http") {
        Ok(TransportKind::Tcp)
    } else {
        Err(CoreError::UnsupportedProtocol)
    }
}

impl Listener {
    /// Records a successful bind: the listener owns the transport and waits
    /// for a handshake. A failed bind is fatal to the run and never reaches
    /// this transition.
    pub fn start_listening(&mut self, kind: TransportKind)
        requires
            old(self).status is Idle,
            old(self).wf(),
        ensures
            final(self).id == old(self).id,
            final(self).status is Listening,
            final(self).transport == Some(kind),
            final(self).wf(),
    {
        self.status = Status::Listening;
        self.transport = Some(kind);
    }

    /// Records the end of an interact session: the peer is gone, the
    /// transport stays bound, the listener waits for the next handshake.
    pub fn end_session(&mut self)
        requires
            old(self).status is Bound,
            old(self).wf(),
        ensures
            *final(self) == spec_end_session(*old(self)),
            final(self).wf(),
    {
        self.status = Status::Listening;
    }
}

/// The listener after an interact session ends: back to listening on the same
/// transport.
pub open spec fn spec_end_session(lsn: Listener) -> Listener {
    Listener { status: Status::Listening, ..lsn }
}

/// What one poll of the listening loop decided.
#[derive(Debug, Clone, Copy, PartialEq, Eq)]
pub enum ListenOutcome {
    /// The stop code was read: the transport is released, the loop ends.
    Stopped,
    /// The inbound payload carried the marker: an interact session begins.
    Accepted,
    /// Nothing to act on: poll again.
    Waiting,
}

/// The payload of one poll's inbound datagram, if any arrived in time.
pub open spec fn spec_inbound(inbound: Option<&Vec<u8>>) -> Option<Seq<u8>> {
    match inbound {
        Some(data) => Some(data@),
        None => None,
    }
}

/// True when a poll accepts its inbound payload as a peer handshake: the stop
/// code was not read, data arrived, and it carries the marker.
pub open spec fn spec_accepts(code: u8, inbound: Option<Seq<u8>>) -> bool {
    code != CC_STOP && (inbound matches Some(data) && spec_contains_marker(data))
}

/// The listener after one poll of the listening loop.
pub open spec fn spec_listen_next(lsn: Listener, code: u8, inbound: Option<Seq<u8>>) -> Listener {
    if code == CC_STOP {
        Listener { status: Status::Idle, transport: None, ..lsn }
    } else if spec_accepts(code, inbound) {
        Listener { status: Status::Bound, ..lsn }
    } else {
        lsn
    }
}

/// What one poll of the listening loop decides.
pub open spec fn spec_listen_outcome(code: u8, inbound: Option<Seq<u8>>) -> ListenOutcome {
    if code == CC_STOP {
        ListenOutcome::Stopped
    } else if spec_accepts(code, inbound) {
        ListenOutcome::Accepted
    } else {
        ListenOutcome::Waiting
    }
}

/// One poll of the listening loop: `code` is the control code read from the
/// mailbox this iteration, `inbound` the payload received before the read
/// timeout, if any. The stop code wins over any inbound data; an inbound
/// payload without the marker is dropped without a trace; any other control
/// code leaves the listener exactly as it was.
pub fn listen_poll(lsn: &mut Listener, code: u8, inbound: Option<&Vec<u8>>) -> (o: ListenOutcome)
    requires
        old(lsn).status is Listening,
        old(lsn).wf(),
    ensures
        *final(lsn) == spec_listen_next(*old(lsn), code, spec_inbound(inbound)),
        o == spec_listen_outcome(code, spec_inbound(inbound)),
        final(lsn).wf(),
{
    if code == CC_STOP {
        lsn.status = Status::Idle;
        lsn.transport = None;
        return ListenOutcome::Stopped;
    }
    match inbound {
        Some(data) => {
            if contains_marker(data) {
                lsn.status = Status::Bound;
                ListenOutcome::Accepted
            } else {
                ListenOutcome::Waiting
            }
        },
        None => ListenOutcome::Waiting,
    }
}

/// The name of a lifecycle phase.
pub open spec fn status_chars(s: Status) -> Seq<char> {
    match s {
        Status::Idle => "Idle"@,
        Status::Listening => "Listening"@,
        Status::Bound => "Bound"@,
    }
}

/// The human-readable status line of a listener.
pub open spec fn listener_info_chars(id: nat, s: Status) -> Seq<char> {
    "Listener "@ + dec_chars(id) + " :: Status - "@ + status_chars(s)
}

/// Renders the status line, `Listener <id> :: Status - <phase>`.
pub fn get_lsn_info(lsn: &mut Listener) -> (info: String)
    ensures
        *final(lsn) == *old(lsn),
        info@ == listener_info_chars(old(lsn).id as nat, old(lsn).status),
{
    let mut info = String::new();
    info.append("Listener ");
    let id_part = u64_to_string(lsn.id);
    info.append(id_part.as_str());
    info.append(" :: Status - ");
    match lsn.status {
        Status::Idle => info.append("Idle"),
        Status::Listening => info.append("Listening"),
        Status::Bound => info.append("Bound"),
    }
    proof {
        assert(info@ =~= listener_info_chars(lsn.id as nat, lsn.status));
    }
    info
}

/// The acknowledgment the listener leaves in the response slot after reading
/// a control code.
pub open spec fn ack_chars(code: u8) -> Seq<char> {
    "Control Code Recieved: "@ + dec_chars(code as nat)
}

/// The response one mailbox poll leaves: the status line for an info request,
/// the acknowledgment for every other code.
pub open spec fn spec_poll_response(code: u8, id: nat, s: Status) -> Seq<u8> {
    if code == CC_INFO {
        encode_utf8(listener_info_chars(id, s))
    } else {
        encode_utf8(ack_chars(code))
    }
}

/// Reads the operator's control code from the mailbox and answers it: an info
/// request gets the status line, anything else the acknowledgment. The
/// inbound pair stays untouched — the answer goes to the outbound slot, so a
/// queued payload survives the read.
pub fn rcv_client_command(lsn: &mut Listener, sb: &mut SharedBuffer) -> (code: u8)
    ensures
        code == old(sb).cc,
        *final(lsn) == *old(lsn),
        final(sb).cc == old(sb).cc,
        final(sb).buff == old(sb).buff,
        final(sb).response@ == spec_poll_response(old(sb).cc, old(lsn).id as nat, old(lsn).status),
{
    let code = sb.cc;
    let answer: String = if code == CC_INFO {
        get_lsn_info(lsn)
    } else {
        let mut answer = String::new();
        answer.append("Control Code Recieved: ");
        let code_part = u64_to_string(code as u64);
        answer.append(code_part.as_str());
        proof {
            assert(answer@ =~= ack_chars(code));
        }
        answer
    };
    let bytes = answer.as_str().as_bytes_vec();
    sb.write_response(bytes);
    code
}

} // verus!
