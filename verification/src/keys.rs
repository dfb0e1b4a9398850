//! Credential key store: an in-memory table of 33-byte records bounded by
//! `STORE_KEYS`, held in a fixed-capacity `heapless::Vec` as on the device.
//!
//! A record's identity is the low two bits of byte 0 together with bytes
//! 1..33; the high six bits of byte 0 are permission flags and are not part
//! of the identity.  The table never holds two records of the same identity.
//!
//! Persistence is split out: `save_image` yields the exact sequence of
//! records to write to flash, and `load` rebuilds a store from what a flash
//! read handed back; the flash traffic itself happens outside this crate.

use vstd::prelude::*;

verus! {

/// Maximum number of records the store can hold.
pub const STORE_KEYS: usize = 1024;

#[verifier::external_type_specification]
#[verifier::external_body]
#[verifier::reject_recursive_types(T)]
pub struct ExHeaplessVec<T, const N: usize>(heapless::Vec<T, N>);

/// The records held by the backing `heapless::Vec`, in storage order.
pub uninterp spec fn stored_records(v: heapless::Vec<[u8; 33], 1024>) -> Seq<[u8; 33]>;

/// Relies on heapless::Vec::new: a freshly created vector is empty.
#[verifier::external_body]
fn record_vec_new() -> (v: heapless::Vec<[u8; 33], 1024>)
    ensures
        stored_records(v) == Seq::<[u8; 33]>::empty(),
{
    heapless::Vec::new()
}

/// Relies on heapless::Vec::len: the number of elements held.
#[verifier::external_body]
fn record_vec_len(v: &heapless::Vec<[u8; 33], 1024>) -> (n: usize)
    ensures
        n == stored_records(*v).len(),
{
    v.len()
}

/// Relies on heapless::Vec's slice indexing (through Deref): element `i`.
#[verifier::external_body]
fn record_vec_get(v: &heapless::Vec<[u8; 33], 1024>, i: usize) -> (k: [u8; 33])
    requires
        i < stored_records(*v).len(),
    ensures
        k == stored_records(*v)[i as int],
{
    v[i]
}

/// Relies on heapless::Vec::push: appends while below the capacity of 1024,
/// otherwise returns the item and leaves the vector unchanged.
#[verifier::external_body]
fn record_vec_push(v: &mut heapless::Vec<[u8; 33], 1024>, k: [u8; 33]) -> (ok: bool)
    ensures
        stored_records(*old(v)).len() < 1024 ==> ok && stored_records(*final(v))
            == stored_records(*old(v)).push(k),
        stored_records(*old(v)).len() >= 1024 ==> !ok && stored_records(*final(v))
            == stored_records(*old(v)),
{
    v.push(k).is_ok()
}

/// Relies on heapless::Vec::remove: removes element `i`, shifting every later
/// element down by one.
#[verifier::external_body]
fn record_vec_remove(v: &mut heapless::Vec<[u8; 33], 1024>, i: usize)
    requires
        i < stored_records(*old(v)).len(),
    ensures
        stored_records(*final(v)) == stored_records(*old(v)).remove(i as int),
{
    let _ = v.remove(i);
}

/// Two records match when the low two bits of byte 0 and bytes 1..33 agree.
pub open spec fn spec_keys_match(stored: [u8; 33], provided: [u8; 33]) -> bool {
    (stored@[0] & 0x03) == (provided@[0] & 0x03) && stored@.subrange(1, 33) == provided@.subrange(
        1,
        33,
    )
}

/// Index of the first record matching `key`, or -1 when none matches.
pub open spec fn first_match(keys: Seq<[u8; 33]>, key: [u8; 33]) -> int
    decreases keys.len(),
{
    if keys.len() == 0 {
        -1
    } else if spec_keys_match(keys[0], key) {
        0
    } else {
        let r = first_match(keys.drop_first(), key);
        if r < 0 {
            -1
        } else {
            r + 1
        }
    }
}

/// The permission-and-type byte of the first matching record, or 0.
pub open spec fn spec_lookup(keys: Seq<[u8; 33]>, key: [u8; 33]) -> u8 {
    if first_match(keys, key) < 0 {
        0
    } else {
        keys[first_match(keys, key)]@[0]
    }
}

/// No two records of the sequence share an identity.
pub open spec fn no_dup_records(keys: Seq<[u8; 33]>) -> bool {
    forall|i: int, j: int|
        0 <= i < j < keys.len() ==> !spec_keys_match(#[trigger] keys[i], #[trigger] keys[j])
}

/// `first_match` finds `i` when `i` holds the first matching record.
pub proof fn lemma_first_match_found(keys: Seq<[u8; 33]>, key: [u8; 33], i: int)
    requires
        0 <= i < keys.len(),
        spec_keys_match(keys[i], key),
        forall|j: int| 0 <= j < i ==> !spec_keys_match(#[trigger] keys[j], key),
    ensures
        first_match(keys, key) == i,
    decreases keys.len(),
{
    if i > 0 {
        assert(!spec_keys_match(keys[0], key));
        lemma_first_match_found(keys.drop_first(), key, i - 1);
    }
}

/// `first_match` is -1 exactly when no record matches; when it is not, it is
/// in range, it points at a match, and nothing before it matches.
pub proof fn lemma_first_match_spec(keys: Seq<[u8; 33]>, key: [u8; 33])
    ensures
        first_match(keys, key) < 0 ==> forall|j: int|
            0 <= j < keys.len() ==> !spec_keys_match(#[trigger] keys[j], key),
        first_match(keys, key) >= 0 ==> {
            let m = first_match(keys, key);
            &&& m < keys.len()
            &&& spec_keys_match(keys[m], key)
            &&& forall|j: int| 0 <= j < m ==> !spec_keys_match(#[trigger] keys[j], key)
        },
    decreases keys.len(),
{
    if keys.len() > 0 && !spec_keys_match(keys[0], key) {
        lemma_first_match_spec(keys.drop_first(), key);
        let m = first_match(keys.drop_first(), key);
        if m >= 0 {
            assert forall|j: int| 0 <= j < m + 1 implies !spec_keys_match(
                #[trigger] keys[j],
                key,
            ) by {
                if j > 0 {
                    assert(keys.drop_first()[j - 1] == keys[j]);
                }
            }
        } else {
            assert forall|j: int| 0 <= j < keys.len() implies !spec_keys_match(
                #[trigger] keys[j],
                key,
            ) by {
                if j > 0 {
                    assert(keys.drop_first()[j - 1] == keys[j]);
                }
            }
        }
    }
}

/// Matching the same identity is transitive across records.
proof fn lemma_keys_match_trans(a: [u8; 33], b: [u8; 33], c: [u8; 33])
    requires
        spec_keys_match(a, c),
        spec_keys_match(b, c),
    ensures
        spec_keys_match(a, b),
{
}

/// Outcome of an attempt to add a record.
#[derive(Clone, Copy, PartialEq, Eq, Structural, Debug)]
pub enum AddOutcome {
    Added,
    RejectedDuplicate,
    RejectedFull,
}

/// Outcome of an attempt to delete a record.
#[derive(Clone, Copy, PartialEq, Eq, Structural, Debug)]
pub enum DelOutcome {
    Deleted,
    NotFound,
}

/// In-memory table of credential records.
pub struct KeyStore {
    keys: heapless::Vec<[u8; 33], 1024>,
}

impl View for KeyStore {
    type V = Seq<[u8; 33]>;

    closed spec fn view(&self) -> Seq<[u8; 33]> {
        stored_records(self.keys)
    }
}

impl KeyStore {
    /// The table never holds two records of the same identity.
    pub open spec fn wf(self) -> bool {
        no_dup_records(self@)
    }

    /// An empty store.
    pub fn new() -> (ks: KeyStore)
        ensures
            ks@ == Seq::<[u8; 33]>::empty(),
            ks.wf(),
    {
        KeyStore { keys: record_vec_new() }
    }

    /// Whether the two records carry the same identity.
    pub fn keys_match(stored: &[u8; 33], provided: &[u8; 33]) -> (r: bool)
        ensures
            r == spec_keys_match(*stored, *provided),
    {
        if (stored[0] & 0x03) != (provided[0] & 0x03) {
            proof {
                assert(!spec_keys_match(*stored, *provided));
            }
            return false;
        }
        let mut i: usize = 1;
        while i < 33
            invariant
                1 <= i <= 33,
                forall|j: int| 1 <= j < i ==> stored@[j] == provided@[j],
            decreases 33 - i,
        {
            if stored[i] != provided[i] {
                proof {
                    assert(stored@.subrange(1, 33)[i - 1] != provided@.subrange(1, 33)[i - 1]);
                }
                return false;
            }
            i += 1;
        }
        proof {
            assert(stored@.subrange(1, 33) =~= provided@.subrange(1, 33));
        }
        true
    }

    /// Number of stored records.
    pub fn len(&self) -> (n: usize)
        ensures
            n == self@.len(),
    {
        record_vec_len(&self.keys)
    }

    /// Whether the store holds no record.
    pub fn is_empty(&self) -> (r: bool)
        ensures
            r == (self@.len() == 0),
    {
        self.len() == 0
    }

    /// Record at `index`, or `None` past the end.
    pub fn get(&self, index: usize) -> (r: Option<[u8; 33]>)
        ensures
            index < self@.len() ==> r == Some(self@[index as int]),
            index >= self@.len() ==> r is None,
    {
        if index < self.len() {
            Some(record_vec_get(&self.keys, index))
        } else {
            None
        }
    }

    /// Permission-and-type byte of the first record matching `key`, or 0.
    pub fn lookup(&self, key: &[u8; 33]) -> (r: u8)
        ensures
            r == spec_lookup(self@, *key),
    {
        let n = self.len();
        let mut i: usize = 0;
        while i < n
            invariant
                i <= n == self@.len(),
                forall|j: int| 0 <= j < i ==> !spec_keys_match(#[trigger] self@[j], *key),
            decreases n - i,
        {
            let stored = record_vec_get(&self.keys, i);
            if Self::keys_match(&stored, key) {
                proof {
                    lemma_first_match_found(self@, *key, i as int);
                }
                return stored[0];
            }
            i += 1;
        }
        proof {
            lemma_first_match_spec(self@, *key);
            if first_match(self@, *key) >= 0 {
                assert(spec_keys_match(self@[first_match(self@, *key)], *key));
                assert(false);
            }
        }
        0
    }

    /// Index of the first record matching `key`, if any.
    fn find(&self, key: &[u8; 33]) -> (r: Option<usize>)
        ensures
            self@.len() <= usize::MAX,
            first_match(self@, *key) < 0 ==> r is None,
            first_match(self@, *key) >= 0 ==> r == Some(first_match(self@, *key) as usize)
                && first_match(self@, *key) < self@.len(),
    {
        let n = self.len();
        let mut i: usize = 0;
        while i < n
            invariant
                i <= n == self@.len(),
                forall|j: int| 0 <= j < i ==> !spec_keys_match(#[trigger] self@[j], *key),
            decreases n - i,
        {
            let stored = record_vec_get(&self.keys, i);
            if Self::keys_match(&stored, key) {
                proof {
                    lemma_first_match_found(self@, *key, i as int);
                }
                return Some(i);
            }
            i += 1;
        }
        proof {
            lemma_first_match_spec(self@, *key);
            if first_match(self@, *key) >= 0 {
                assert(spec_keys_match(self@[first_match(self@, *key)], *key));
                assert(false);
            }
        }
        None
    }

    /// Add a record, unless its identity is already present or the table is
    /// full.  The table alone changes; persisting the new image is the
    /// caller's next step (`save_image`).
    pub fn add(&mut self, key: [u8; 33]) -> (r: AddOutcome)
        requires
            old(self).wf(),
        ensures
            final(self).wf(),
            first_match(old(self)@, key) >= 0 ==> r == AddOutcome::RejectedDuplicate && final(self)@ == old(self)@,
            first_match(old(self)@, key) < 0 && old(self)@.len() >= STORE_KEYS ==> r
                == AddOutcome::RejectedFull && final(self)@ == old(self)@,
            first_match(old(self)@, key) < 0 && old(self)@.len() < STORE_KEYS ==> r
                == AddOutcome::Added && final(self)@ == old(self)@.push(key),
    {
        match self.find(&key) {
            Some(_) => AddOutcome::RejectedDuplicate,
            None => {
                let ghost pre = self@;
                let ok = record_vec_push(&mut self.keys, key);
                if ok {
                    proof {
                        lemma_first_match_spec(pre, key);
                        assert forall|i: int, j: int| 0 <= i < j < self@.len() implies
                            !spec_keys_match(#[trigger] self@[i], #[trigger] self@[j]) by {
                            if j < pre.len() as int {
                                assert(self@[i] == pre[i] && self@[j] == pre[j]);
                            } else {
                                assert(self@[j] == key && self@[i] == pre[i]);
                                if spec_keys_match(pre[i], key) {
                                    assert(false);
                                }
                            }
                        }
                    }
                    AddOutcome::Added
                } else {
                    AddOutcome::RejectedFull
                }
            },
        }
    }

    /// Delete the first record matching `key`, shifting later records down.
    /// As with `add`, persisting the new image is the caller's next step.
    pub fn del(&mut self, key: [u8; 33]) -> (r: DelOutcome)
        requires
            old(self).wf(),
        ensures
            final(self).wf(),
            first_match(old(self)@, key) < 0 ==> r == DelOutcome::NotFound && final(self)@ == old(self)@,
            first_match(old(self)@, key) >= 0 ==> r == DelOutcome::Deleted && final(self)@ == old(self)@.remove(first_match(old(self)@, key)) && 0 <= first_match(old(self)@, key) < old(self)@.len() && final(self)@.len() == old(self)@.len() - 1,
    {
        match self.find(&key) {
            None => DelOutcome::NotFound,
            Some(idx) => {
                let ghost pre = self@;
                proof {
                    lemma_first_match_spec(pre, key);
                }
                record_vec_remove(&mut self.keys, idx);
                proof {
                    assert forall|i: int, j: int| 0 <= i < j < self@.len() implies
                        !spec_keys_match(#[trigger] self@[i], #[trigger] self@[j]) by {
                        let i0: int = if i < idx { i } else { i + 1 };
                        let j0: int = if j < idx { j } else { j + 1 };
                        assert(self@[i] == pre[i0] && self@[j] == pre[j0]);
                    }
                }
                DelOutcome::Deleted
            },
        }
    }

    /// The exact sequence of records to persist: record `i` of the image goes
    /// to flash id `1 + i`, preceded by the count under id 0.
    pub fn save_image(&self) -> (img: Vec<[u8; 33]>)
        ensures
            img@ == self@,
    {
        let n = self.len();
        let mut img: Vec<[u8; 33]> = Vec::new();
        let mut i: usize = 0;
        while i < n
            invariant
                i <= n == self@.len(),
                img@ =~= self@.take(i as int),
            decreases n - i,
        {
            img.push(record_vec_get(&self.keys, i));
            i += 1;
        }
        proof {
            assert(self@.take(n as int) =~= self@);
        }
        img
    }

    /// Replace the whole table by `image` (used to roll back after a failed
    /// persist, restoring a previously taken `save_image`).
    pub fn restore(&mut self, image: &Vec<[u8; 33]>)
        requires
            image@.len() <= STORE_KEYS,
        ensures
            final(self)@ == image@,
    {
        self.keys = record_vec_new();
        let mut i: usize = 0;
        while i < image.len()
            invariant
                i <= image@.len() <= STORE_KEYS,
                self@ =~= image@.take(i as int),
            decreases image@.len() - i,
        {
            let ok = record_vec_push(&mut self.keys, image[i]);
            proof {
                assert(ok);
            }
            i += 1;
        }
        proof {
            assert(image@.take(image@.len() as int) =~= image@);
        }
    }
}

/// The table that loading yields: every record a flash read produced, in
/// order, skipping absent entries and stopping at the capacity.
pub open spec fn spec_load(fetched: Seq<Option<[u8; 33]>>) -> Seq<[u8; 33]>
    decreases fetched.len(),
{
    if fetched.len() == 0 {
        Seq::<[u8; 33]>::empty()
    } else {
        let rest = spec_load(fetched.drop_last());
        match fetched.last() {
            Some(k) => if rest.len() < STORE_KEYS {
                rest.push(k)
            } else {
                rest
            },
            None => rest,
        }
    }
}

/// Build a store from what a flash read produced for ids `1 ..= count`:
/// `fetched[i]` is the record stored under id `1 + i`, or `None` when that
/// entry was missing or corrupt.  Such entries are skipped; no error is
/// fatal during a load.
pub fn load(fetched: &Vec<Option<[u8; 33]>>) -> (ks: KeyStore)
    ensures
        ks@ == spec_load(fetched@),
{
    let mut ks = KeyStore::new();
    let mut i: usize = 0;
    while i < fetched.len()
        invariant
            i <= fetched@.len(),
            ks@ == spec_load(fetched@.take(i as int)),
        decreases fetched@.len() - i,
    {
        proof {
            assert(fetched@.take(i + 1).drop_last() =~= fetched@.take(i as int));
            assert(fetched@.take(i + 1).last() == fetched@[i as int]);
            lemma_spec_load_len(fetched@.take(i as int));
        }
        match fetched[i] {
            Some(k) => {
                let _ = record_vec_push(&mut ks.keys, k);
            },
            None => {},
        }
        i += 1;
    }
    proof {
        assert(fetched@.take(fetched@.len() as int) =~= fetched@);
    }
    ks
}

/// A loaded table never exceeds the capacity.
pub proof fn lemma_spec_load_len(fetched: Seq<Option<[u8; 33]>>)
    ensures
        spec_load(fetched).len() <= STORE_KEYS,
        spec_load(fetched).len() <= fetched.len(),
    decreases fetched.len(),
{
    if fetched.len() > 0 {
        lemma_spec_load_len(fetched.drop_last());
    }
}

/// Saving and loading round-trips the table: a store whose image is written
/// record by record and read back yields the same records in the same order.
pub proof fn lemma_save_load_round_trip(keys: Seq<[u8; 33]>)
    requires
        keys.len() <= STORE_KEYS,
    ensures
        spec_load(keys.map_values(|k: [u8; 33]| Some(k))) == keys,
    decreases keys.len(),
{
    let mapped = keys.map_values(|k: [u8; 33]| Some(k));
    if keys.len() > 0 {
        lemma_save_load_round_trip(keys.drop_last());
        lemma_spec_load_len(keys.drop_last().map_values(|k: [u8; 33]| Some(k)));
        assert(mapped.drop_last() =~= keys.drop_last().map_values(|k: [u8; 33]| Some(k)));
        assert(mapped.last() == Some(keys.last()));
        assert(spec_load(mapped) =~= keys);
    } else {
        assert(spec_load(mapped) =~= keys);
    }
}

/// After `add` has accepted `key` into a table that held no matching record,
/// `lookup` of `key` finds it: the result is the record's own byte 0, whose
/// low two bits are the key type of `key`.  (A record whose byte 0 is zero is
/// the one exception: it has no permission bits and no valid type, and
/// `lookup` cannot distinguish it from absence.)
pub proof fn lemma_add_then_lookup(keys: Seq<[u8; 33]>, key: [u8; 33])
    requires
        first_match(keys, key) < 0,
        key@[0] != 0,
    ensures
        spec_lookup(keys.push(key), key) == key@[0],
        spec_lookup(keys.push(key), key) != 0,
        spec_lookup(keys.push(key), key) & 0x03 == key@[0] & 0x03,
{
    lemma_first_match_spec(keys, key);
    let pushed = keys.push(key);
    assert(spec_keys_match(pushed[keys.len() as int], key));
    assert forall|j: int| 0 <= j < keys.len() implies !spec_keys_match(
        #[trigger] pushed[j],
        key,
    ) by {
        assert(pushed[j] == keys[j]);
    }
    lemma_first_match_found(pushed, key, keys.len() as int);
}

/// After `del` has removed the one record matching `key` from a table
/// without duplicate identities, `lookup` of `key` returns 0.
pub proof fn lemma_del_then_lookup(keys: Seq<[u8; 33]>, key: [u8; 33])
    requires
        no_dup_records(keys),
        first_match(keys, key) >= 0,
    ensures
        spec_lookup(keys.remove(first_match(keys, key)), key) == 0,
{
    let m = first_match(keys, key);
    lemma_first_match_spec(keys, key);
    let rest = keys.remove(m);
    assert forall|j: int| 0 <= j < rest.len() implies !spec_keys_match(
        #[trigger] rest[j],
        key,
    ) by {
        let j0: int = if j < m {
            j
        } else {
            j + 1
        };
        assert(rest[j] == keys[j0]);
        if spec_keys_match(keys[j0], key) {
            lemma_keys_match_trans(keys[j0], keys[m], key);
            if j0 < m {
                assert(!spec_keys_match(keys[j0], keys[m]));
            } else {
                lemma_keys_match_trans(keys[m], keys[j0], key);
                assert(!spec_keys_match(keys[m], keys[j0]));
            }
            assert(false);
        }
    }
    lemma_first_match_spec(rest, key);
    if first_match(rest, key) >= 0 {
        assert(spec_keys_match(rest[first_match(rest, key)], key));
        assert(false);
    }
}

} // verus!
