//! The interact session: the per-peer loop entered once a handshake is
//! accepted. It is a nested state machine inside the listener's — the outer
//! machine governs whether a peer exists, this one governs how bytes flow
//! while it does. Each step turns one polled control code into at most one
//! peer-directed action; the surrounding program performs the sends and keeps
//! polling until a step releases the peer.

use vstd::prelude::*;
use crate::all_zero;
use crate::mailbox::SharedBuffer;
use crate::vec_is_zero;
use crate::CC_RELEASE;
use crate::CC_SEND;
use crate::CC_SHELL;
use crate::CC_SHELL_END;
use crate::SIG_DATA_FOLLOWS;
use crate::SIG_ENTER_SHELL;
use crate::SIG_RELEASE;

verus! {

/// How bytes flow to the bound peer.
#[derive(Debug, Clone, Copy, PartialEq, Eq)]
pub enum SessionMode {
    /// Command mode: control codes are dispatched one by one.
    Passive,
    /// Shell pass-through mode, declared but without a relay implementation.
    Interactive,
}

/// An interact session with one authenticated peer.
#[derive(Debug, Clone, Copy, PartialEq, Eq)]
pub struct Session {
    /// Current flow mode.
    pub mode: SessionMode,
}

/// Opens an interact session in command mode.
pub fn new_session() -> (sess: Session)
    ensures
        sess.mode is Passive,
{
    Session { mode: SessionMode::Passive }
}

/// The action one session step prescribes. The program performs the sends of
/// `wire_of` the action and, on `Release`, returns the listener to listening.
#[derive(Debug, PartialEq, Eq)]
pub enum SessionAction {
    /// Send the release signal and let the peer go dormant; the session ends.
    Release,
    /// The send code arrived but no payload is queued: sleep one interval and
    /// poll again rather than spin.
    AwaitPayload,
    /// Send the data-follows signal, then exactly these queued bytes.
    SendQueued(Vec<u8>),
    /// Send the enter-shell signal and switch to pass-through mode.
    EnterShell,
    /// Leave pass-through mode; nothing is sent.
    ExitShell,
    /// Pass-through mode has no relay implementation: an explicit failure,
    /// never a silent no-op.
    RelayUnavailable,
    /// A code outside the session's table: an explicit named condition the
    /// caller may ignore or report, never an abort.
    Unknown(u8),
}

/// The session mode after one step: the shell codes switch modes, everything
/// else leaves the mode alone.
pub open spec fn spec_next_mode(mode: SessionMode, code: u8) -> SessionMode {
    if mode is Passive && code == CC_SHELL {
        SessionMode::Interactive
    } else if code == CC_SHELL_END {
        SessionMode::Passive
    } else {
        mode
    }
}

/// The datagrams one step sends to the peer, in order: exactly one release
/// signal on the release code; the data-follows signal followed by exactly
/// the queued bytes on the send code with a payload queued; one enter-shell
/// signal on the shell code; nothing otherwise.
pub open spec fn spec_session_wire(mode: SessionMode, code: u8, queued: Seq<u8>) -> Seq<Seq<u8>> {
    if mode is Passive {
        if code == CC_RELEASE {
            seq![seq![SIG_RELEASE]]
        } else if code == CC_SEND && !all_zero(queued) {
            seq![seq![SIG_DATA_FOLLOWS], queued]
        } else if code == CC_SHELL {
            seq![seq![SIG_ENTER_SHELL]]
        } else {
            seq![]
        }
    } else {
        seq![]
    }
}

/// The datagrams an action stands for, in send order.
pub open spec fn wire_of(a: SessionAction) -> Seq<Seq<u8>> {
    match a {
        SessionAction::Release => seq![seq![SIG_RELEASE]],
        SessionAction::SendQueued(payload) => seq![seq![SIG_DATA_FOLLOWS], payload@],
        SessionAction::EnterShell => seq![seq![SIG_ENTER_SHELL]],
        _ => seq![],
    }
}

/// One step of the interact session. `code` is the control code read from the
/// mailbox this iteration; the queued payload is consumed — and its slot
/// emptied — exactly when the send code meets a non-empty slot, so the same
/// payload goes out once. An all-zero slot counts as empty: the operator
/// program pre-fills the buffer with zeros.
pub fn session_step(sess: &mut Session, code: u8, sb: &mut SharedBuffer) -> (a: SessionAction)
    ensures
        final(sess).mode == spec_next_mode(old(sess).mode, code),
        wire_of(a) == spec_session_wire(old(sess).mode, code, old(sb).buff@),
        final(sb).cc == old(sb).cc,
        final(sb).response == old(sb).response,
        // the payload slot is emptied exactly when its bytes go out
        (a matches SessionAction::SendQueued(payload)) ==> final(sb).buff@ == Seq::<u8>::empty(),
        !(a matches SessionAction::SendQueued(payload)) ==> final(sb).buff == old(sb).buff,
        // which action comes back, case by case
        (a is Release) <==> (old(sess).mode is Passive && code == CC_RELEASE),
        (a is AwaitPayload) <==> (old(sess).mode is Passive && code == CC_SEND && all_zero(
            old(sb).buff@,
        )),
        (a matches SessionAction::SendQueued(payload) && payload@ == old(sb).buff@) <==> (old(
            sess,
        ).mode is Passive && code == CC_SEND && !all_zero(old(sb).buff@)),
        (a is EnterShell) <==> (old(sess).mode is Passive && code == CC_SHELL),
        (a is ExitShell) <==> (code == CC_SHELL_END),
        (a is RelayUnavailable) <==> (old(sess).mode is Interactive && code != CC_SHELL_END),
        (a matches SessionAction::Unknown(c) && c == code) <==> (old(sess).mode is Passive && !(
        code == CC_RELEASE || code == CC_SEND || code == CC_SHELL || code == CC_SHELL_END)),
{
    match sess.mode {
        SessionMode::Interactive => {
            if code == CC_SHELL_END {
                sess.mode = SessionMode::Passive;
                SessionAction::ExitShell
            } else {
                SessionAction::RelayUnavailable
            }
        },
        SessionMode::Passive => {
            if code == CC_RELEASE {
                SessionAction::Release
            } else if code == CC_SEND {
                if vec_is_zero(&sb.buff) {
                    SessionAction::AwaitPayload
                } else {
                    let payload = sb.take_command_payload();
                    SessionAction::SendQueued(payload)
                }
            } else if code == CC_SHELL {
                sess.mode = SessionMode::Interactive;
                SessionAction::EnterShell
            } else if code == CC_SHELL_END {
                SessionAction::ExitShell
            } else {
                SessionAction::Unknown(code)
            }
        },
    }
}

/// Lays out the bytes an action sends, in order, one vector per datagram.
pub fn action_wire(a: &SessionAction) -> (w: Vec<Vec<u8>>)
    ensures
        w.deep_view() == wire_of(*a),
{
    let mut w: Vec<Vec<u8>> = Vec::new();
    match a {
        SessionAction::Release => {
            let mut signal: Vec<u8> = Vec::new();
            signal.push(SIG_RELEASE);
            w.push(signal);
            proof {
                assert(w.deep_view() =~~= wire_of(*a));
            }
        },
        SessionAction::SendQueued(payload) => {
            let mut signal: Vec<u8> = Vec::new();
            signal.push(SIG_DATA_FOLLOWS);
            w.push(signal);
            w.push(crate::mailbox::clone_bytes(payload));
            proof {
                assert(w.deep_view() =~~= wire_of(*a));
            }
        },
        SessionAction::EnterShell => {
            let mut signal: Vec<u8> = Vec::new();
            signal.push(SIG_ENTER_SHELL);
            w.push(signal);
            proof {
                assert(w.deep_view() =~~= wire_of(*a));
            }
        },
        _ => {
            proof {
                assert(w.deep_view() =~~= wire_of(*a));
            }
        },
    }
    w
}

} // verus!
