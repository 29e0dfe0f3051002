//! The cross-thread command mailbox. One operator-facing thread writes a
//! control code with an optional payload; the listener thread reads both at
//! its next poll and leaves an acknowledgment. The surrounding program wraps
//! one `SharedBuffer` in a mutex and holds the guard for a single read or
//! write, never across a blocking network call, so each call below is one
//! critical section.
//!
//! The command pair and the listener's answer live in separate slots: the
//! inbound slot (`cc`, `buff`) is written only by the operator and consumed by
//! the listener, and the outbound slot (`response`) is written only by the
//! listener, so an acknowledgment can never overwrite a queued payload.

use vstd::prelude::*;

verus! {

/// The shared mailbox: the latest control code with its payload, and the
/// listener's latest response.
pub struct SharedBuffer {
    /// Inbound slot: the control code most recently written by the operator.
    pub cc: u8,
    /// Inbound slot: the payload that accompanies `cc`.
    pub buff: Vec<u8>,
    /// Outbound slot: the listener's acknowledgment or status report.
    pub response: Vec<u8>,
}

/// The command snapshot a reader observes: the code and the payload, taken
/// from one and the same state.
pub open spec fn command_pair(cc: u8, buff: Seq<u8>) -> (u8, Seq<u8>) {
    (cc, buff)
}

/// The command slot after a run of whole-pair writes: each write replaces the
/// pair, so the slot holds the initial pair until the first write and the
/// latest pair afterwards.
pub open spec fn command_after(init: (u8, Seq<u8>), writes: Seq<(u8, Seq<u8>)>) -> (u8, Seq<u8>)
    decreases writes.len(),
{
    if writes.len() == 0 {
        init
    } else {
        command_after(writes[0], writes.subrange(1, writes.len() as int))
    }
}

/// Copies a byte vector.
pub fn clone_bytes(src: &Vec<u8>) -> (out: Vec<u8>)
    ensures
        out@ == src@,
{
    let mut out: Vec<u8> = Vec::new();
    let mut i: usize = 0;
    while i < src.len()
        invariant
            0 <= i <= src@.len(),
            out@ =~= src@.take(i as int),
        decreases src@.len() - i,
    {
        out.push(src[i]);
        i = i + 1;
    }
    proof {
        assert(out@ =~= src@);
    }
    out
}

impl SharedBuffer {
    /// An empty mailbox: no command pending, no payload, no response.
    pub fn new() -> (sb: SharedBuffer)
        ensures
            sb.cc == 0,
            sb.buff@ == Seq::<u8>::empty(),
            sb.response@ == Seq::<u8>::empty(),
    {
        SharedBuffer { cc: 0, buff: Vec::new(), response: Vec::new() }
    }

    /// Replaces the whole inbound pair in one step; the response slot is
    /// untouched. The operator thread calls this under the guard.
    pub fn write_command(&mut self, code: u8, payload: Vec<u8>)
        ensures
            final(self).cc == code,
            final(self).buff@ == payload@,
            final(self).response == old(self).response,
    {
        self.cc = code;
        self.buff = payload;
    }

    /// Snapshots the inbound pair: both parts come from the same state, so a
    /// reader never pairs a code with the payload of a different write.
    pub fn read_command(&self) -> (r: (u8, Vec<u8>))
        ensures
            (r.0, r.1@) == command_pair(self.cc, self.buff@),
    {
        (self.cc, clone_bytes(&self.buff))
    }

    /// Empties the inbound payload slot after its bytes went out, so the same
    /// payload is never sent twice.
    pub fn take_command_payload(&mut self) -> (payload: Vec<u8>)
        ensures
            payload@ == old(self).buff@,
            final(self).buff@ == Seq::<u8>::empty(),
            final(self).cc == old(self).cc,
            final(self).response == old(self).response,
    {
        let payload = clone_bytes(&self.buff);
        self.buff = Vec::new();
        payload
    }

    /// Replaces the outbound slot; the inbound pair is untouched. The
    /// listener thread calls this under the guard.
    pub fn write_response(&mut self, bytes: Vec<u8>)
        ensures
            final(self).response@ == bytes@,
            final(self).cc == old(self).cc,
            final(self).buff == old(self).buff,
    {
        self.response = bytes;
    }

    /// Snapshots the outbound slot. The operator thread compares it against
    /// the last value it saw to detect a change: the mailbox itself carries no
    /// version counter, so reacting exactly once per change takes exactly this
    /// snapshot-and-compare discipline.
    pub fn read_response(&self) -> (r: Vec<u8>)
        ensures
            r@ == self.response@,
    {
        clone_bytes(&self.response)
    }
}

/// Atomicity of the command pair: after any run of whole-pair writes, the
/// snapshot a read returns is the initial pair (no write yet) or the pair of
/// the latest write — the code is never paired with the payload of a
/// different write.
pub proof fn lemma_snapshot_is_one_write(init: (u8, Seq<u8>), writes: Seq<(u8, Seq<u8>)>)
    ensures
        writes.len() == 0 ==> command_after(init, writes) == init,
        writes.len() > 0 ==> command_after(init, writes) == writes[writes.len() - 1],
    decreases writes.len(),
{
    if writes.len() > 0 {
        lemma_snapshot_is_one_write(writes[0], writes.subrange(1, writes.len() as int));
        if writes.len() > 1 {
            assert(writes.subrange(1, writes.len() as int)[writes.len() - 2] == writes[writes.len()
                - 1]);
        }
    }
}

} // verus!
