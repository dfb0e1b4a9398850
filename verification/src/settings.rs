//! Configuration store: 32-bit scalar slots addressed by a byte id, and the
//! device name under the distinguished slot 255, stored as a 64-byte
//! null-padded array whose last byte always stays zero.
//!
//! The store is the in-memory mirror of the flash map: reads answer from the
//! mirror, writes update the mirror and report what has to be persisted.
//! `load_slot` / `load_name` install what a flash read produced, both at
//! boot and when rolling back after a failed persist.

use vstd::prelude::*;
use vstd::utf8::valid_utf8;

verus! {

/// Width of the device-name slot; at most 63 bytes are usable, one byte is
/// reserved so the stored array always ends in a zero.
pub const MAX_NAME_LEN: usize = 64;

/// Slot id under which the device name is stored.
pub const NAME_SLOT_ID: u8 = 255;

/// Reserved slot: persisting a value here makes the device reset.
pub const REBOOT_SLOT_ID: u8 = 31;

/// The named configuration slots and their ids.
#[derive(Clone, Copy, PartialEq, Eq, Structural, Debug)]
pub enum ConfigSlot {
    Pad,
    IOPolarity,
    LampPreStart,
    ConnTimeout,
    AutoClose,
    LeftOpenDelay,
    LeftOpenDuration,
    RightOpenDelay,
    RightOpenDuration,
    LeftCloseDelay,
    LeftCloseDuration,
    RightCloseDelay,
    RightCloseDuration,
}

impl ConfigSlot {
    /// The slot id used in the flash map.
    pub open spec fn spec_as_u8(self) -> u8 {
        match self {
            ConfigSlot::Pad => 0,
            ConfigSlot::IOPolarity => 1,
            ConfigSlot::LampPreStart => 2,
            ConfigSlot::ConnTimeout => 3,
            ConfigSlot::AutoClose => 4,
            ConfigSlot::LeftOpenDelay => 8,
            ConfigSlot::LeftOpenDuration => 9,
            ConfigSlot::RightOpenDelay => 10,
            ConfigSlot::RightOpenDuration => 11,
            ConfigSlot::LeftCloseDelay => 12,
            ConfigSlot::LeftCloseDuration => 13,
            ConfigSlot::RightCloseDelay => 14,
            ConfigSlot::RightCloseDuration => 15,
        }
    }

    /// Convert the slot to its id.
    pub fn as_u8(self) -> (r: u8)
        ensures
            r == self.spec_as_u8(),
    {
        match self {
            ConfigSlot::Pad => 0,
            ConfigSlot::IOPolarity => 1,
            ConfigSlot::LampPreStart => 2,
            ConfigSlot::ConnTimeout => 3,
            ConfigSlot::AutoClose => 4,
            ConfigSlot::LeftOpenDelay => 8,
            ConfigSlot::LeftOpenDuration => 9,
            ConfigSlot::RightOpenDelay => 10,
            ConfigSlot::RightOpenDuration => 11,
            ConfigSlot::LeftCloseDelay => 12,
            ConfigSlot::LeftCloseDuration => 13,
            ConfigSlot::RightCloseDelay => 14,
            ConfigSlot::RightCloseDuration => 15,
        }
    }

    /// The default of the slot, in milliseconds except for the polarity
    /// bitfield: used when the flash holds no value for it.
    pub open spec fn spec_default_value(self) -> u32 {
        match self {
            ConfigSlot::Pad => 0,
            ConfigSlot::IOPolarity => 0,
            ConfigSlot::LampPreStart => 500,
            ConfigSlot::ConnTimeout => 2000,
            ConfigSlot::AutoClose => 5000,
            ConfigSlot::LeftOpenDelay => 100,
            ConfigSlot::LeftOpenDuration => 2000,
            ConfigSlot::RightOpenDelay => 800,
            ConfigSlot::RightOpenDuration => 2000,
            ConfigSlot::LeftCloseDelay => 800,
            ConfigSlot::LeftCloseDuration => 2000,
            ConfigSlot::RightCloseDelay => 100,
            ConfigSlot::RightCloseDuration => 2000,
        }
    }

    /// Default of the slot.
    pub fn default_value(self) -> (r: u32)
        ensures
            r == self.spec_default_value(),
    {
        match self {
            ConfigSlot::Pad => 0,
            ConfigSlot::IOPolarity => 0,
            ConfigSlot::LampPreStart => 500,
            ConfigSlot::ConnTimeout => 2000,
            ConfigSlot::AutoClose => 5000,
            ConfigSlot::LeftOpenDelay => 100,
            ConfigSlot::LeftOpenDuration => 2000,
            ConfigSlot::RightOpenDelay => 800,
            ConfigSlot::RightOpenDuration => 2000,
            ConfigSlot::LeftCloseDelay => 800,
            ConfigSlot::LeftCloseDuration => 2000,
            ConfigSlot::RightCloseDelay => 100,
            ConfigSlot::RightCloseDuration => 2000,
        }
    }
}

/// Relies on core::str::from_utf8: it succeeds exactly on valid UTF-8.
#[verifier::external_body]
pub(crate) fn utf8_ok(bytes: &Vec<u8>) -> (r: bool)
    ensures
        r == valid_utf8(bytes@),
{
    core::str::from_utf8(bytes.as_slice()).is_ok()
}

/// Index of the first zero byte, or the length when there is none.
pub open spec fn first_zero(s: Seq<u8>) -> int
    decreases s.len(),
{
    if s.len() == 0 {
        0
    } else if s[0] == 0 {
        0
    } else {
        1 + first_zero(s.drop_first())
    }
}

/// `first_zero` finds `m` when byte `m` is the first zero.
pub proof fn lemma_first_zero_found(s: Seq<u8>, m: int)
    requires
        0 <= m <= s.len(),
        forall|j: int| 0 <= j < m ==> s[j] != 0,
        m < s.len() ==> s[m] == 0,
    ensures
        first_zero(s) == m,
    decreases s.len(),
{
    if s.len() > 0 && m > 0 {
        assert forall|j: int| 0 <= j < m - 1 implies s.drop_first()[j] != 0 by {
            assert(s.drop_first()[j] == s[j + 1]);
        }
        lemma_first_zero_found(s.drop_first(), m - 1);
    }
}

/// The 64-byte image of a name: its first `min(len, 63)` bytes, zero-padded.
pub open spec fn spec_encode_name(name: Seq<u8>) -> Seq<u8> {
    Seq::new(
        64,
        |i: int|
            if i < name.len() && i < 63 {
                name[i]
            } else {
                0u8
            },
    )
}

/// The name a stored 64-byte image reads back as: the bytes before the
/// first zero, unless they are empty or not valid UTF-8, in which case the
/// supplied default.
pub open spec fn spec_read_name(image: Seq<u8>, default: Seq<u8>) -> Seq<u8> {
    let raw = image.take(first_zero(image));
    if raw.len() > 0 && valid_utf8(raw) {
        raw
    } else {
        default
    }
}

/// The bytes of `bytes` before its first zero byte.
pub fn trim_at_first_zero(bytes: &[u8; 64]) -> (r: Vec<u8>)
    ensures
        r@ == bytes@.take(first_zero(bytes@)),
{
    let mut out: Vec<u8> = Vec::new();
    let mut i: usize = 0;
    while i < 64
        invariant
            i <= 64,
            out@.len() == i,
            forall|j: int| 0 <= j < i ==> out@[j] == bytes@[j] && bytes@[j] != 0,
        decreases 64 - i,
    {
        if bytes[i] == 0 {
            proof {
                lemma_first_zero_found(bytes@, i as int);
                assert(out@ =~= bytes@.take(i as int));
            }
            return out;
        }
        out.push(bytes[i]);
        i += 1;
    }
    proof {
        lemma_first_zero_found(bytes@, 64);
        assert(out@ =~= bytes@.take(64));
    }
    out
}

/// The 64-byte image of a name: its first 63 bytes, zero-padded to 64.
pub fn encode_name(name: &Vec<u8>) -> (r: [u8; 64])
    ensures
        r@ == spec_encode_name(name@),
{
    let mut image: [u8; 64] = [0; 64];
    let n = if name.len() < 63 {
        name.len()
    } else {
        63
    };
    let mut i: usize = 0;
    while i < n
        invariant
            i <= n,
            n == if name@.len() < 63 {
                name@.len() as int
            } else {
                63
            },
            image@.len() == 64,
            forall|j: int| 0 <= j < i ==> image@[j] == name@[j],
            forall|j: int| i <= j < 64 ==> image@[j] == 0,
        decreases n - i,
    {
        image[i] = name[i];
        i += 1;
    }
    proof {
        assert(image@ =~= spec_encode_name(name@));
    }
    image
}

/// In-memory mirror of the configuration region of the flash map.
pub struct ConfigStore {
    slots: Vec<Option<u32>>,
    name_image: Option<[u8; 64]>,
}

impl ConfigStore {
    /// One mirror cell per possible slot id.
    pub closed spec fn wf(self) -> bool {
        self.slots@.len() == 256
    }

    /// The value the mirror holds for a scalar slot, if any.
    pub closed spec fn stored_u32(self, slot: u8) -> Option<u32> {
        self.slots@[slot as int]
    }

    /// The stored 64-byte name image, if a name was ever stored.
    pub closed spec fn stored_name(self) -> Option<Seq<u8>> {
        match self.name_image {
            Some(img) => Some(img@),
            None => None,
        }
    }

    /// What `get_slot` answers: the stored value, or the default.
    pub open spec fn spec_get_slot(self, slot: u8, default: u32) -> u32 {
        match self.stored_u32(slot) {
            Some(v) => v,
            None => default,
        }
    }

    /// What `get_name` answers.
    pub open spec fn spec_get_name(self, default: Seq<u8>) -> Seq<u8> {
        match self.stored_name() {
            Some(img) => spec_read_name(img, default),
            None => default,
        }
    }

    /// An empty mirror: every slot unset, no name stored.
    pub fn new() -> (cs: ConfigStore)
        ensures
            cs.wf(),
            forall|s: u8| cs.stored_u32(s) is None,
            cs.stored_name() is None,
    {
        let mut slots: Vec<Option<u32>> = Vec::new();
        let mut i: usize = 0;
        while i < 256
            invariant
                i <= 256,
                slots@.len() == i,
                forall|j: int| 0 <= j < i ==> slots@[j] is None,
            decreases 256 - i,
        {
            slots.push(None);
            i += 1;
        }
        ConfigStore { slots, name_image: None }
    }

    /// The stored value of slot `slot`, or `default` when none is stored.
    pub fn get_slot(&self, slot: u8, default: u32) -> (r: u32)
        requires
            self.wf(),
        ensures
            r == self.spec_get_slot(slot, default),
    {
        match self.slots[slot as usize] {
            Some(v) => v,
            None => default,
        }
    }

    /// `get_slot` under a named slot.
    pub fn get(&self, slot: ConfigSlot, default: u32) -> (r: u32)
        requires
            self.wf(),
        ensures
            r == self.spec_get_slot(slot.spec_as_u8(), default),
    {
        self.get_slot(slot.as_u8(), default)
    }

    /// Store `value` under `slot` in the mirror and hand back the previous
    /// cell, with which `load_slot` can roll the write back if persisting
    /// it fails.
    pub fn set_slot(&mut self, slot: u8, value: u32) -> (prev: Option<u32>)
        requires
            old(self).wf(),
        ensures
            final(self).wf(),
            prev == old(self).stored_u32(slot),
            final(self).stored_u32(slot) == Some(value),
            forall|s: u8| s != slot ==> final(self).stored_u32(s) == old(self).stored_u32(s),
            final(self).stored_name() == old(self).stored_name(),
    {
        let prev = self.slots[slot as usize];
        self.slots.set(slot as usize, Some(value));
        prev
    }

    /// `set_slot` under a named slot.
    pub fn set(&mut self, slot: ConfigSlot, value: u32) -> (prev: Option<u32>)
        requires
            old(self).wf(),
        ensures
            final(self).wf(),
            prev == old(self).stored_u32(slot.spec_as_u8()),
            final(self).stored_u32(slot.spec_as_u8()) == Some(value),
            forall|s: u8|
                s != slot.spec_as_u8() ==> final(self).stored_u32(s) == old(self).stored_u32(s),
            final(self).stored_name() == old(self).stored_name(),
    {
        self.set_slot(slot.as_u8(), value)
    }

    /// Install what a flash read produced for `slot` (`None`: absent or
    /// unreadable).  Also rolls back a `set_slot` whose persist failed.
    pub fn load_slot(&mut self, slot: u8, value: Option<u32>)
        requires
            old(self).wf(),
        ensures
            final(self).wf(),
            final(self).stored_u32(slot) == value,
            forall|s: u8| s != slot ==> final(self).stored_u32(s) == old(self).stored_u32(s),
            final(self).stored_name() == old(self).stored_name(),
    {
        self.slots.set(slot as usize, value);
    }

    /// The device name: the stored bytes before the first zero, or
    /// `default` when nothing (or nothing readable) is stored.
    pub fn get_name(&self, default: &Vec<u8>) -> (r: Vec<u8>)
        requires
            self.wf(),
        ensures
            r@ == self.spec_get_name(default@),
    {
        match &self.name_image {
            None => clone_bytes(default),
            Some(img) => {
                let raw = trim_at_first_zero(img);
                if raw.len() > 0 && utf8_ok(&raw) {
                    raw
                } else {
                    clone_bytes(default)
                }
            },
        }
    }

    /// Store a name: its first 63 bytes, padded with zeros to 64.  Hands
    /// back the previous image, with which `load_name` can roll back.
    pub fn set_name(&mut self, name: &Vec<u8>) -> (prev: Option<[u8; 64]>)
        requires
            old(self).wf(),
        ensures
            final(self).wf(),
            old(self).stored_name() is Some <==> prev is Some,
            prev matches Some(p) ==> old(self).stored_name() == Some(p@),
            final(self).stored_name() == Some(spec_encode_name(name@)),
            forall|s: u8| final(self).stored_u32(s) == old(self).stored_u32(s),
    {
        let prev = self.name_image;
        self.name_image = Some(encode_name(name));
        prev
    }

    /// The stored 64-byte name image, for persisting it.
    pub fn name_image(&self) -> (r: Option<[u8; 64]>)
        ensures
            r is Some <==> self.stored_name() is Some,
            r matches Some(img) ==> self.stored_name() == Some(img@),
    {
        self.name_image
    }

    /// The two mirrors hold the same slots and the same name.
    pub open spec fn same_state(self, other: ConfigStore) -> bool {
        &&& forall|s: u8| self.stored_u32(s) == other.stored_u32(s)
        &&& self.stored_name() == other.stored_name()
    }

    /// Install what a flash read produced for the name slot (`None`: absent
    /// or unreadable).  Also rolls back a `set_name` whose persist failed.
    pub fn load_name(&mut self, image: Option<[u8; 64]>)
        requires
            old(self).wf(),
        ensures
            final(self).wf(),
            image matches Some(img) ==> final(self).stored_name() == Some(img@),
            image is None ==> final(self).stored_name() is None,
            forall|s: u8| final(self).stored_u32(s) == old(self).stored_u32(s),
    {
        self.name_image = image;
    }
}

/// Copy of a byte vector.
fn clone_bytes(v: &Vec<u8>) -> (r: Vec<u8>)
    ensures
        r@ == v@,
{
    let mut out: Vec<u8> = Vec::new();
    let mut i: usize = 0;
    while i < v.len()
        invariant
            i <= v@.len(),
            out@ =~= v@.take(i as int),
        decreases v@.len() - i,
    {
        out.push(v[i]);
        i += 1;
    }
    proof {
        assert(v@.take(v@.len() as int) =~= v@);
    }
    out
}

/// A store whose slot holds `value` answers `value` whatever default the
/// reader supplies: writing a scalar and reading it back round-trips.
pub proof fn lemma_set_then_get_slot(cs: ConfigStore, slot: u8, value: u32, default: u32)
    requires
        cs.stored_u32(slot) == Some(value),
    ensures
        cs.spec_get_slot(slot, default) == value,
{
}

/// Writing a name of 1 to 63 bytes, zero-free and valid UTF-8, and reading
/// it back yields the name itself, whatever default the reader supplies.
/// (A longer name is cut to its first 63 bytes; reading then yields that
/// prefix under the same conditions on the prefix.)
pub proof fn lemma_set_then_get_name(cs: ConfigStore, name: Seq<u8>, default: Seq<u8>)
    requires
        cs.stored_name() == Some(spec_encode_name(name)),
        0 < name.len() <= 63,
        forall|i: int| 0 <= i < name.len() ==> name[i] != 0,
        valid_utf8(name),
    ensures
        cs.spec_get_name(default) == name,
{
    let img = spec_encode_name(name);
    lemma_first_zero_found(img, name.len() as int);
    assert(img.take(name.len() as int) =~= name);
}

} // verus!
