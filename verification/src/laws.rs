//! The guarantees the core gives across its functions, each proved from the
//! state-machine specifications the executable contracts are stated over. The
//! atomicity of the mailbox's command pair is proved beside the mailbox
//! itself, in `mailbox::lemma_snapshot_is_one_write`.

use vstd::prelude::*;
use crate::all_zero;
use crate::handshake::spec_contains_marker;
use crate::listener::spec_accepts;
use crate::listener::spec_end_session;
use crate::listener::spec_listen_next;
use crate::listener::spec_listen_outcome;
use crate::listener::ListenOutcome;
use crate::listener::Listener;
use crate::listener::Status;
use crate::session::spec_next_mode;
use crate::session::spec_session_wire;
use crate::session::SessionMode;
use crate::spec_dispatch;
use crate::ControlCommand;
use crate::CC_INFO;
use crate::CC_RELEASE;
use crate::CC_SEND;
use crate::CC_SHELL;
use crate::CC_SHELL_END;
use crate::CC_STOP;
use crate::SIG_DATA_FOLLOWS;
use crate::SIG_RELEASE;

verus! {

/// A stop code written before a poll is honored at that poll: the listener
/// goes idle and the transport is released, whatever else arrived. (How soon
/// the poll comes is the loop's affair: one poll interval plus at most one
/// blocking call's read timeout.)
pub proof fn lemma_stop_honored(lsn: Listener, inbound: Option<Seq<u8>>)
    requires
        lsn.status is Listening,
        lsn.wf(),
    ensures
        spec_listen_next(lsn, CC_STOP, inbound).status is Idle,
        spec_listen_next(lsn, CC_STOP, inbound).transport is None,
        spec_listen_outcome(CC_STOP, inbound) is Stopped,
{
}

/// A listening poll accepts exactly the inbound payloads that carry the
/// authentication marker (unless the stop code preempts them): the listener
/// is bound and one interact session begins on `Accepted`, and on no other
/// outcome — one session per accepted connection.
pub proof fn lemma_marker_accepts(lsn: Listener, code: u8, data: Seq<u8>)
    requires
        lsn.status is Listening,
        lsn.wf(),
        code != CC_STOP,
    ensures
        spec_contains_marker(data) ==> spec_listen_next(lsn, code, Some(data)).status is Bound,
        spec_listen_outcome(code, Some(data)) is Accepted <==> spec_contains_marker(data),
        spec_listen_next(lsn, code, Some(data)).status is Bound <==> spec_listen_outcome(
            code,
            Some(data),
        ) is Accepted,
{
}

/// An inbound payload without the marker changes nothing: the listener stays
/// exactly as it was — still listening — and no interact session is created.
pub proof fn lemma_no_marker_no_session(lsn: Listener, code: u8, inbound: Option<Seq<u8>>)
    requires
        lsn.status is Listening,
        lsn.wf(),
        code != CC_STOP,
        !(inbound matches Some(data) && spec_contains_marker(data)),
    ensures
        spec_listen_next(lsn, code, inbound) == lsn,
        spec_listen_next(lsn, code, inbound).status is Listening,
        !(spec_listen_outcome(code, inbound) is Accepted),
{
}

/// The send code transmits exactly one data-follows signal followed by
/// exactly the queued bytes — and only once a payload is queued: while the
/// slot is empty nothing is sent, the step prescribes another poll, and after
/// the bytes go out the emptied slot makes a repeated send code poll rather
/// than resend.
pub proof fn lemma_send_queued_exact(queued: Seq<u8>)
    ensures
        !all_zero(queued) ==> spec_session_wire(SessionMode::Passive, CC_SEND, queued) =~~= seq![
            seq![SIG_DATA_FOLLOWS],
            queued,
        ],
        all_zero(queued) ==> spec_session_wire(SessionMode::Passive, CC_SEND, queued) =~~= Seq::<
            Seq<u8>,
        >::empty(),
        spec_session_wire(SessionMode::Passive, CC_SEND, Seq::<u8>::empty()) =~~= Seq::<
            Seq<u8>,
        >::empty(),
{
}

/// The release code sends exactly one release signal — one datagram of one
/// byte — and the listener whose session ends returns to listening on its
/// transport, same identity.
pub proof fn lemma_release_exact(lsn: Listener, queued: Seq<u8>)
    requires
        lsn.status is Bound,
        lsn.wf(),
    ensures
        spec_session_wire(SessionMode::Passive, CC_RELEASE, queued) =~~= seq![seq![SIG_RELEASE]],
        spec_end_session(lsn).status is Listening,
        spec_end_session(lsn).transport == lsn.transport,
        spec_end_session(lsn).id == lsn.id,
        spec_end_session(lsn).wf(),
{
}

/// A control code outside the dispatcher's table is an explicit named
/// condition, never an abort: a listening poll without inbound data leaves
/// the listener untouched, a session step sends nothing and keeps its mode,
/// and the dispatcher hands the code back to its caller.
pub proof fn lemma_unknown_code_harmless(
    lsn: Listener,
    mode: SessionMode,
    code: u8,
    queued: Seq<u8>,
)
    requires
        lsn.status is Listening,
        lsn.wf(),
        code != CC_INFO,
        code != CC_STOP,
        code != CC_RELEASE,
        code != CC_SEND,
        code != CC_SHELL,
        code != CC_SHELL_END,
    ensures
        spec_listen_next(lsn, code, None) == lsn,
        spec_listen_outcome(code, None) is Waiting,
        spec_next_mode(mode, code) == mode,
        spec_session_wire(mode, code, queued) =~~= Seq::<Seq<u8>>::empty(),
        spec_dispatch(code) == ControlCommand::Unknown(code),
{
}

} // verus!
