//! Cheap content fingerprints: the length, and either the whole content or,
//! for large content, only its head and tail windows.
use vstd::prelude::*;
use vstd::bytes::{spec_u64_to_le_bytes, u64_to_le_bytes};
use vstd::slice::slice_subrange;
use vstd::std_specs::hash::DefaultHasherAdditionalSpecFns;
use vstd::string::{StrSliceExecFns, StringSliceAdditionalSpecFns};
use std::collections::hash_map::DefaultHasher;
use std::hash::Hasher;

verus! {

/// Content longer than this many bytes is sampled instead of hashed whole.
pub const LARGE_THRESHOLD: usize = 1024;

/// Size of the head and tail windows of sampled content.
pub const WINDOW: usize = 512;

/// Whether content of these bytes is sampled.
pub open spec fn is_large(bytes: Seq<u8>) -> bool {
    bytes.len() > LARGE_THRESHOLD
}

/// The first window of the content.
pub open spec fn head(bytes: Seq<u8>) -> Seq<u8> {
    bytes.subrange(0, WINDOW as int)
}

/// The last window of the content.
pub open spec fn tail(bytes: Seq<u8>) -> Seq<u8> {
    bytes.subrange(bytes.len() - WINDOW, bytes.len() as int)
}

/// The writes that the hasher receives for content of these bytes: the
/// length, then the whole content or its two windows.
pub open spec fn fingerprint_input(bytes: Seq<u8>) -> Seq<Seq<u8>> {
    let len = spec_u64_to_le_bytes(bytes.len() as u64);
    if is_large(bytes) {
        seq![len, head(bytes), tail(bytes)]
    } else {
        seq![len, bytes]
    }
}

/// The fingerprint of content of these bytes.
pub open spec fn fingerprint_of(bytes: Seq<u8>) -> u64 {
    DefaultHasher::spec_finish(fingerprint_input(bytes))
}

/// Fingerprint of a text: its UTF-8 length together with the whole text, or,
/// above the threshold, only its first and last windows.
pub fn hash_content(s: &str) -> (r: u64)
    ensures
        r == fingerprint_of(s.spec_bytes()),
{
    let bytes = s.as_bytes_vec();
    let n = bytes.len();
    let mut hasher = DefaultHasher::new();
    let len = u64_to_le_bytes(n as u64);
    hasher.write(len.as_slice());
    if n > LARGE_THRESHOLD {
        let first = slice_subrange(bytes.as_slice(), 0, WINDOW);
        hasher.write(first);
        let last = slice_subrange(bytes.as_slice(), n - WINDOW, n);
        hasher.write(last);
    } else {
        hasher.write(bytes.as_slice());
    }
    proof {
        assert(hasher@ =~= fingerprint_input(s.spec_bytes()));
    }
    hasher.finish()
}

/// The fingerprint is a function of the content alone: equal texts always
/// get equal fingerprints.
pub proof fn lemma_fingerprint_deterministic(a: &str, b: &str)
    requires
        a@ == b@,
    ensures
        fingerprint_of(a.spec_bytes()) == fingerprint_of(b.spec_bytes()),
{
}

/// Two distinct contents of at most the threshold's size hand the hasher
/// different input, so only a collision of the hash itself can give them
/// the same fingerprint.
pub proof fn lemma_short_inputs_distinct(a: Seq<u8>, b: Seq<u8>)
    requires
        a != b,
        a.len() <= LARGE_THRESHOLD,
        b.len() <= LARGE_THRESHOLD,
    ensures
        fingerprint_input(a) != fingerprint_input(b),
{
    assert(fingerprint_input(a)[1] == a);
    assert(fingerprint_input(b)[1] == b);
}

/// Large contents of one length that agree on their first and last windows
/// get the same fingerprint, whatever lies between them.
pub proof fn lemma_large_blind_spot(a: Seq<u8>, b: Seq<u8>)
    requires
        a.len() == b.len(),
        a.len() > LARGE_THRESHOLD,
        head(a) == head(b),
        tail(a) == tail(b),
    ensures
        fingerprint_of(a) == fingerprint_of(b),
{
    assert(fingerprint_input(a) =~= fingerprint_input(b));
}

} // verus!
