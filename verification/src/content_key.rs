//! Catalog entries and the lookup keys derived from them.

use ethereum_types::H256;
use vstd::array::spec_array_fill_for_copy_type;
use vstd::array::spec_array_update;
use vstd::prelude::*;
use vstd::slice::slice_subrange;

verus! {

/// Number of bytes in the hash that identifies a piece of content.
pub const HASH_LEN: usize = 32;

/// Offset of the first hash byte in a raw content key; byte 0 is the type
/// selector.
pub const HASH_START: usize = 1;

/// Offset just past the last hash byte in a raw content key.
pub const HASH_END: usize = 33;

/// Type selector under which block header keys are encoded.
pub const BLOCK_HEADER_SELECTOR: u8 = 0;

/// The identifying hash of a raw content key: its bytes 1 to 32. Whatever
/// follows them is specific to the key type and plays no part.
pub open spec fn key_hash(raw_key: Seq<u8>) -> Seq<u8> {
    raw_key.subrange(HASH_START as int, HASH_END as int)
}

/// The array that holds exactly the 32 bytes of `bytes`.
pub closed spec fn hash_array(bytes: Seq<u8>) -> [u8; 32] {
    choose|a: [u8; 32]| a@ == bytes
}

/// The lookup key of a raw content key: the block header key that carries
/// the raw key's hash.
pub open spec fn derived_key(raw_key: Seq<u8>) -> LookupKey {
    LookupKey::BlockHeader { block_hash: hash_array(key_hash(raw_key)) }
}

/// An array that agrees with `bytes` on its first `n` positions.
proof fn array_with_prefix(bytes: Seq<u8>, n: nat) -> (a: [u8; 32])
    requires
        bytes.len() == 32,
        n <= 32,
    ensures
        forall|i: int| 0 <= i < n ==> a@[i] == bytes[i],
    decreases n,
{
    broadcast use vstd::array::group_array_axioms;

    if n == 0 {
        spec_array_fill_for_copy_type::<u8, 32>(0u8)
    } else {
        let shorter = array_with_prefix(bytes, (n - 1) as nat);
        spec_array_update(shorter, n - 1, bytes[n - 1])
    }
}

/// `hash_array` is the inverse of the view on arrays of 32 bytes.
pub proof fn lemma_hash_array(bytes: Seq<u8>)
    requires
        bytes.len() == 32,
    ensures
        hash_array(bytes)@ == bytes,
{
    let witness = array_with_prefix(bytes, 32);
    assert(witness@ =~= bytes);
}

/// An array is the `hash_array` of its own bytes.
pub proof fn lemma_hash_array_of_view(hash: [u8; 32])
    ensures
        hash_array(hash@) == hash,
{
    broadcast use vstd::array::group_array_axioms;

    lemma_hash_array(hash@);
    assert(hash_array(hash@) =~= hash);
}

/// What the auditor asks the network for: the minimal form of a content key.
/// Block headers are the one kind of content that is audited.
#[derive(Clone, Copy, Debug, PartialEq, Eq, Hash)]
pub enum LookupKey {
    /// The header of the block with this hash.
    BlockHeader { block_hash: [u8; 32] },
}

impl LookupKey {
    /// The 32 bytes of the hash that the key carries.
    pub open spec fn hash(&self) -> Seq<u8> {
        match *self {
            LookupKey::BlockHeader { block_hash } => block_hash@,
        }
    }

    /// The type selector under which the key is encoded.
    pub open spec fn selector_spec(&self) -> u8 {
        match *self {
            LookupKey::BlockHeader { .. } => BLOCK_HEADER_SELECTOR,
        }
    }

    /// Derives the lookup key of a raw content key, whose byte 0 is a type
    /// selector and whose bytes 1 to 32 are the hash. A raw key too short to
    /// hold a hash has no lookup key.
    pub fn from_raw_key(raw_key: &[u8]) -> (key: Option<LookupKey>)
        ensures
            raw_key@.len() >= HASH_END ==> key == Some(derived_key(raw_key@)),
            raw_key@.len() < HASH_END ==> key is None,
            key matches Some(derived) ==> derived.hash() == key_hash(raw_key@),
    {
        if raw_key.len() < HASH_END {
            return None;
        }
        let hash_bytes = slice_subrange(raw_key, HASH_START, HASH_END);
        let block_hash = hash_from_slice(hash_bytes);
        proof {
            lemma_hash_array_of_view(block_hash);
        }
        Some(LookupKey::BlockHeader { block_hash })
    }

    /// The hash that the key carries.
    pub fn block_hash(&self) -> (hash: [u8; 32])
        ensures
            hash@ == self.hash(),
    {
        match self {
            LookupKey::BlockHeader { block_hash } => *block_hash,
        }
    }

    /// The type selector under which the key is encoded.
    #[verifier::when_used_as_spec(selector_spec)]
    pub fn selector(&self) -> (selector: u8)
        ensures
            selector == self.selector_spec(),
    {
        match self {
            LookupKey::BlockHeader { .. } => BLOCK_HEADER_SELECTOR,
        }
    }
}

/// A content key as the catalog holds it. The catalog creates the entries;
/// the pipeline only reads them.
///
/// Every entry holds a raw key long enough to carry a selector byte and a
/// hash, so a lookup key can be derived from each.
#[derive(Debug, PartialEq, Eq)]
pub struct ContentKeyEntry {
    id: i32,
    raw_key: Vec<u8>,
    created_at: i64,
}

/// What a catalog entry holds, as plain values.
pub struct ContentKeyEntryView {
    /// The catalog's identifier of the entry.
    pub id: i32,
    /// The content key as stored: a selector byte, the hash, and what the
    /// key type adds.
    pub raw_key: Seq<u8>,
    /// When the catalog took the entry in, in seconds since the Unix epoch.
    pub created_at: i64,
}

impl View for ContentKeyEntry {
    type V = ContentKeyEntryView;

    closed spec fn view(&self) -> ContentKeyEntryView {
        ContentKeyEntryView { id: self.id, raw_key: self.raw_key@, created_at: self.created_at }
    }
}

impl Clone for ContentKeyEntry {
    fn clone(&self) -> (copy: ContentKeyEntry)
        ensures
            copy@ == self@,
    {
        proof {
            use_type_invariant(self);
        }
        ContentKeyEntry {
            id: self.id,
            raw_key: self.raw_key.clone(),
            created_at: self.created_at,
        }
    }
}

impl ContentKeyEntry {
    /// The raw key is long enough to hold the selector and the hash.
    #[verifier::type_invariant]
    pub open spec fn well_formed(&self) -> bool {
        self@.raw_key.len() >= HASH_END
    }

    /// Makes an entry of what the catalog returned, unless the raw key is
    /// too short to hold a hash.
    pub fn new(id: i32, raw_key: Vec<u8>, created_at: i64) -> (entry: Option<ContentKeyEntry>)
        ensures
            entry is Some <==> raw_key@.len() >= HASH_END,
            entry matches Some(e) ==> e@ == (ContentKeyEntryView {
                id,
                raw_key: raw_key@,
                created_at,
            }) && e.well_formed(),
    {
        if raw_key.len() < HASH_END {
            None
        } else {
            Some(ContentKeyEntry { id, raw_key, created_at })
        }
    }

    /// The catalog's identifier of the entry.
    pub fn id(&self) -> (id: i32)
        ensures
            id == self@.id,
    {
        self.id
    }

    /// The content key as stored.
    pub fn raw_key(&self) -> (raw_key: &[u8])
        ensures
            raw_key@ == self@.raw_key,
            raw_key@.len() >= HASH_END,
    {
        proof {
            use_type_invariant(self);
        }
        self.raw_key.as_slice()
    }

    /// When the catalog took the entry in, in seconds since the Unix epoch.
    pub fn created_at(&self) -> (created_at: i64)
        ensures
            created_at == self@.created_at,
    {
        self.created_at
    }

    /// The key under which the entry's content is looked up.
    pub fn lookup_key(&self) -> (key: LookupKey)
        ensures
            key == derived_key(self@.raw_key),
            key.hash() == key_hash(self@.raw_key),
    {
        let derived = LookupKey::from_raw_key(self.raw_key());
        derived.unwrap()
    }
}

/// The derived key carries the hash of the raw key, whatever its selector and
/// whatever follows the hash.
pub proof fn derivation_keeps_hash(selector: u8, hash: Seq<u8>, tail: Seq<u8>)
    requires
        hash.len() == HASH_LEN,
    ensures
        derived_key(seq![selector] + hash + tail).hash() == hash,
{
    let raw_key = seq![selector] + hash + tail;
    assert(key_hash(raw_key) =~= hash);
    lemma_hash_array(hash);
}

/// Two raw keys have the same lookup key exactly when they hold the same
/// hash: the derivation is one-to-one on the hash, and blind to the rest.
pub proof fn derivation_is_injective_on_hash(first: Seq<u8>, second: Seq<u8>)
    requires
        first.len() >= HASH_END,
        second.len() >= HASH_END,
    ensures
        derived_key(first) == derived_key(second) <==> key_hash(first) == key_hash(second),
{
    lemma_hash_array(key_hash(first));
    lemma_hash_array(key_hash(second));
}

/// A lookup key is the key derived from its own encoding: the selector
/// followed by the hash.
pub proof fn derivation_inverts_encoding(key: LookupKey)
    ensures
        derived_key(seq![key.selector_spec()] + key.hash()) == key,
{
    let raw_key = seq![key.selector_spec()] + key.hash();
    assert(key_hash(raw_key) =~= key.hash());
    match key {
        LookupKey::BlockHeader { block_hash } => {
            lemma_hash_array_of_view(block_hash);
        },
    }
}

/// Copies 32 bytes into a hash and hands back the hash's bytes, through
/// `ethereum_types::H256::from_slice` and `H256::to_fixed_bytes`. `from_slice`
/// panics unless it is given exactly 32 bytes, which the precondition asks
/// for; it copies them in the order given, and `to_fixed_bytes` returns the
/// array that the hash wraps. The result therefore holds the bytes of the
/// argument, in order.
#[verifier::external_body]
fn hash_from_slice(bytes: &[u8]) -> (hash: [u8; 32])
    requires
        bytes@.len() == 32,
    ensures
        hash@ == bytes@,
{
    H256::from_slice(bytes).to_fixed_bytes()
}

} // verus!
