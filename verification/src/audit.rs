//! Authentication audit log: a ring buffer of 100 entries, newest first.
//!
//! Every authentication attempt appends one entry, successful or not.  The
//! count saturates at the capacity and eviction is strict FIFO.  Entry 0 of
//! the logical log is always the most recent attempt.

use vstd::prelude::*;
use vstd::bytes::{
    spec_u16_to_le_bytes, spec_u16_from_le_bytes, spec_u64_to_le_bytes, spec_u64_from_le_bytes,
    u16_to_le_bytes, u16_from_le_bytes, u64_to_le_bytes, u64_from_le_bytes,
    lemma_auto_spec_u16_to_from_le_bytes, lemma_auto_spec_u64_to_from_le_bytes,
};

verus! {

/// Capacity of the audit log ring buffer.
pub const AUTH_LOG_CAP: usize = 100;

/// Length in bytes of one encoded audit log entry.
pub const AUTH_LOG_ENTRY_LEN: usize = 50;

/// One authentication attempt.
#[derive(Clone, Copy, PartialEq, Eq, Debug)]
pub struct AuthLogEntry {
    /// The credential record the client presented.
    pub pubkey: [u8; 33],
    /// Device uptime when the attempt was made, in milliseconds.
    pub uptime_ms: u64,
    /// Peer address of the connection.
    pub addr: [u8; 6],
    /// The action the client had requested.
    pub auth_action: u16,
    /// Whether the signature verified.
    pub success: bool,
}

impl Default for AuthLogEntry {
    fn default() -> (e: Self)
        ensures
            forall|i: int| 0 <= i < 33 ==> e.pubkey@[i] == 0,
            e.uptime_ms == 0,
            forall|i: int| 0 <= i < 6 ==> e.addr@[i] == 0,
            e.auth_action == 0,
            !e.success,
    {
        AuthLogEntry { pubkey: [0; 33], uptime_ms: 0, addr: [0; 6], auth_action: 0, success: false }
    }
}

/// Flags byte of the 50-byte encoding: bit 0 "valid", bit 1 "success".
pub open spec fn spec_entry_flags(e: AuthLogEntry) -> u8 {
    if e.success {
        0x03
    } else {
        0x01
    }
}

/// The 50-byte little-endian encoding of an entry: flags, the 33-byte
/// record, the uptime as a `u64`, the 6-byte peer address, and the action.
pub open spec fn spec_entry_bytes(e: AuthLogEntry) -> Seq<u8> {
    seq![spec_entry_flags(e)] + e.pubkey@ + spec_u64_to_le_bytes(e.uptime_ms) + e.addr@
        + spec_u16_to_le_bytes(e.auth_action)
}

/// The all-zero 50-byte image returned for an index past the log's count;
/// its flags byte is 0, so the entry reads as invalid.
pub open spec fn spec_blank_entry_bytes() -> Seq<u8> {
    Seq::new(50, |i: int| 0u8)
}

/// The encoding is a pure function of the entry, and every field can be
/// read back from it: decoding the encoding recovers all five fields.
pub proof fn lemma_entry_codec_round_trip(e: AuthLogEntry)
    ensures
        spec_entry_bytes(e).len() == 50,
        spec_entry_bytes(e)[0] & 0x01 == 0x01,
        (spec_entry_bytes(e)[0] & 0x02 == 0x02) == e.success,
        spec_entry_bytes(e).subrange(1, 34) == e.pubkey@,
        spec_u64_from_le_bytes(spec_entry_bytes(e).subrange(34, 42)) == e.uptime_ms,
        spec_entry_bytes(e).subrange(42, 48) == e.addr@,
        spec_u16_from_le_bytes(spec_entry_bytes(e).subrange(48, 50)) == e.auth_action,
{
    lemma_auto_spec_u64_to_from_le_bytes();
    lemma_auto_spec_u16_to_from_le_bytes();
    let b = spec_entry_bytes(e);
    assert(b[0] == spec_entry_flags(e));
    assert(0x01u8 & 0x01 == 0x01) by (bit_vector);
    assert(0x03u8 & 0x01 == 0x01) by (bit_vector);
    assert(0x01u8 & 0x02 == 0x00) by (bit_vector);
    assert(0x03u8 & 0x02 == 0x02) by (bit_vector);
    assert(b.subrange(1, 34) =~= e.pubkey@);
    assert(b.subrange(34, 42) =~= spec_u64_to_le_bytes(e.uptime_ms));
    assert(b.subrange(42, 48) =~= e.addr@);
    assert(b.subrange(48, 50) =~= spec_u16_to_le_bytes(e.auth_action));
}

/// Decode a 50-byte image.  `None` when the valid bit is clear.
pub fn decode_entry(bytes: &[u8; 50]) -> (r: Option<AuthLogEntry>)
    ensures
        (r is Some) == (bytes@[0] & 0x01 == 0x01),
        r matches Some(e) ==> {
            &&& e.success == (bytes@[0] & 0x02 == 0x02)
            &&& e.pubkey@ == bytes@.subrange(1, 34)
            &&& e.uptime_ms == spec_u64_from_le_bytes(bytes@.subrange(34, 42))
            &&& e.addr@ == bytes@.subrange(42, 48)
            &&& e.auth_action == spec_u16_from_le_bytes(bytes@.subrange(48, 50))
        },
{
    if bytes[0] & 0x01 != 0x01 {
        return None;
    }
    let mut pubkey: [u8; 33] = [0; 33];
    let mut i: usize = 0;
    while i < 33
        invariant
            i <= 33,
            forall|j: int| 0 <= j < i ==> pubkey@[j] == bytes@[1 + j],
        decreases 33 - i,
    {
        pubkey[i] = bytes[1 + i];
        i += 1;
    }
    let mut uptime_bytes: Vec<u8> = Vec::new();
    let mut i: usize = 0;
    while i < 8
        invariant
            i <= 8,
            uptime_bytes@.len() == i,
            forall|j: int| 0 <= j < i ==> uptime_bytes@[j] == bytes@[34 + j],
        decreases 8 - i,
    {
        uptime_bytes.push(bytes[34 + i]);
        i += 1;
    }
    let uptime_ms = u64_from_le_bytes(uptime_bytes.as_slice());
    let mut addr: [u8; 6] = [0; 6];
    let mut i: usize = 0;
    while i < 6
        invariant
            i <= 6,
            forall|j: int| 0 <= j < i ==> addr@[j] == bytes@[42 + j],
        decreases 6 - i,
    {
        addr[i] = bytes[42 + i];
        i += 1;
    }
    let mut action_bytes: Vec<u8> = Vec::new();
    action_bytes.push(bytes[48]);
    action_bytes.push(bytes[49]);
    let auth_action = u16_from_le_bytes(action_bytes.as_slice());
    proof {
        assert(pubkey@ =~= bytes@.subrange(1, 34));
        assert(uptime_bytes@ =~= bytes@.subrange(34, 42));
        assert(addr@ =~= bytes@.subrange(42, 48));
        assert(action_bytes@ =~= bytes@.subrange(48, 50));
    }
    Some(
        AuthLogEntry {
            pubkey,
            uptime_ms,
            addr,
            auth_action,
            success: bytes[0] & 0x02 == 0x02,
        },
    )
}

/// Ring buffer of the last `AUTH_LOG_CAP` authentication attempts.
pub struct AuthLog {
    entries: Vec<AuthLogEntry>,
    write_idx: usize,
    count: usize,
}

impl AuthLog {
    /// The buffer always holds exactly 100 slots; the write index wraps
    /// inside them and the count never exceeds the capacity.
    pub closed spec fn wf(self) -> bool {
        &&& self.entries@.len() == 100
        &&& self.write_idx < 100
        &&& self.count <= 100
    }

    /// Buffer slot holding logical entry `i` (0 = newest).
    spec fn slot_of(self, i: int) -> int {
        if self.write_idx - 1 - i >= 0 {
            self.write_idx - 1 - i
        } else {
            self.write_idx - 1 - i + 100
        }
    }

    /// The logical log, newest entry first.
    pub closed spec fn log(self) -> Seq<AuthLogEntry> {
        Seq::new(self.count as nat, |i: int| self.entries@[self.slot_of(i)])
    }

    /// An empty log.
    pub fn new() -> (log: AuthLog)
        ensures
            log.wf(),
            log.log() == Seq::<AuthLogEntry>::empty(),
    {
        let mut entries: Vec<AuthLogEntry> = Vec::new();
        let mut i: usize = 0;
        while i < 100
            invariant
                entries@.len() == i,
                i <= 100,
            decreases 100 - i,
        {
            entries.push(AuthLogEntry::default());
            i += 1;
        }
        let log = AuthLog { entries, write_idx: 0, count: 0 };
        proof {
            assert(log.log() =~= Seq::<AuthLogEntry>::empty());
        }
        log
    }

    /// Append an entry, evicting the oldest once the log is full.  The new
    /// entry becomes logical entry 0; the count grows by one until it
    /// saturates at the capacity.
    pub fn push(&mut self, entry: AuthLogEntry)
        requires
            old(self).wf(),
        ensures
            final(self).wf(),
            final(self).log().len() == if old(self).log().len() < 100 {
                old(self).log().len() + 1
            } else {
                100nat
            },
            final(self).log() == (seq![entry] + old(self).log()).take(
                final(self).log().len() as int,
            ),
    {
        self.entries[self.write_idx] = entry;
        self.write_idx = (self.write_idx + 1) % 100;
        if self.count < 100 {
            self.count += 1;
        }
        proof {
            let pre = *old(self);
            let post = *final(self);
            assert(post.log() =~= (seq![entry] + pre.log()).take(post.log().len() as int));
        }
    }

    /// Number of entries in the log.
    pub fn count(&self) -> (n: usize)
        requires
            self.wf(),
        ensures
            n == self.log().len(),
            n <= 100,
    {
        self.count
    }

    /// Logical entry `index` (0 = newest), or `None` past the count.
    pub fn get(&self, index: usize) -> (r: Option<AuthLogEntry>)
        requires
            self.wf(),
        ensures
            index < self.log().len() ==> r == Some(self.log()[index as int]),
            index >= self.log().len() ==> r is None,
    {
        if index >= self.count {
            return None;
        }
        let newest_idx = if self.write_idx == 0 {
            99
        } else {
            self.write_idx - 1
        };
        let pos = (newest_idx + 100 - index) % 100;
        Some(self.entries[pos])
    }

    /// The 50-byte encoding of logical entry `index`, or the all-zero image
    /// (flags 0, hence invalid) when `index` is not below the count.
    pub fn entry_bytes(&self, index: usize) -> (out: [u8; 50])
        requires
            self.wf(),
        ensures
            index < self.log().len() ==> out@ == spec_entry_bytes(self.log()[index as int]),
            index >= self.log().len() ==> out@ == spec_blank_entry_bytes(),
    {
        let mut out: [u8; 50] = [0; 50];
        match self.get(index) {
            None => {
                proof {
                    assert(out@ =~= spec_blank_entry_bytes());
                }
                out
            },
            Some(entry) => {
                out[0] = if entry.success {
                    0x03
                } else {
                    0x01
                };
                let mut i: usize = 0;
                while i < 33
                    invariant
                        i <= 33,
                        out@.len() == 50,
                        out@[0] == spec_entry_flags(entry),
                        forall|j: int| 0 <= j < i ==> out@[1 + j] == entry.pubkey@[j],
                    decreases 33 - i,
                {
                    out[1 + i] = entry.pubkey[i];
                    i += 1;
                }
                let uptime_bytes = u64_to_le_bytes(entry.uptime_ms);
                let mut i: usize = 0;
                while i < 8
                    invariant
                        i <= 8,
                        out@.len() == 50,
                        uptime_bytes@ == spec_u64_to_le_bytes(entry.uptime_ms),
                        uptime_bytes@.len() == 8,
                        out@[0] == spec_entry_flags(entry),
                        forall|j: int| 0 <= j < 33 ==> out@[1 + j] == entry.pubkey@[j],
                        forall|j: int| 0 <= j < i ==> out@[34 + j] == uptime_bytes@[j],
                    decreases 8 - i,
                {
                    out[34 + i] = uptime_bytes[i];
                    i += 1;
                }
                let mut i: usize = 0;
                while i < 6
                    invariant
                        i <= 6,
                        out@.len() == 50,
                        uptime_bytes@ == spec_u64_to_le_bytes(entry.uptime_ms),
                        out@[0] == spec_entry_flags(entry),
                        forall|j: int| 0 <= j < 33 ==> out@[1 + j] == entry.pubkey@[j],
                        forall|j: int| 0 <= j < 8 ==> out@[34 + j] == uptime_bytes@[j],
                        forall|j: int| 0 <= j < i ==> out@[42 + j] == entry.addr@[j],
                    decreases 6 - i,
                {
                    out[42 + i] = entry.addr[i];
                    i += 1;
                }
                let action_bytes = u16_to_le_bytes(entry.auth_action);
                out[48] = action_bytes[0];
                out[49] = action_bytes[1];
                proof {
                    assert(out@ =~= spec_entry_bytes(entry));
                }
                out
            },
        }
    }
}

} // verus!
