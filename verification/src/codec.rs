//! The serialization codec: binary encode/decode of a filter's internal
//! state.
//!
//! The bytes are `postcard`'s encoding of the underlying `fastbloom` filter —
//! its bit array, hash count and hasher key, the whole state that membership
//! answers depend on. The encoding is named by `bloom_encoding`; decoding an
//! encoding restores a state with the same membership answers. The encoding
//! does not determine the inserted ledger (two different insertion histories
//! can leave identical bits), so a decoded filter starts with an empty
//! ledger: only its membership answers carry over, which is what the round
//! trip promises.

use vstd::prelude::*;

use crate::filter::{batch_query, bloom_may_contain, BloomState, PgBloomFilter};

verus! {

/// The binary encoding of a filter's state: a pure function of the state
/// value alone.
pub uninterp spec fn bloom_encoding(f: BloomState) -> Seq<u8>;

/// The binary encoding of a filter's state.
pub open(crate) spec fn filter_encoding(f: PgBloomFilter) -> Seq<u8> {
    bloom_encoding(f.state)
}

/// Relies on `postcard::to_allocvec` and `fastbloom`'s derived `Serialize`:
/// the bytes are computed from the filter's bit array, hash count and hasher
/// key, and from nothing else; the alloc-backed flavor has no failure path
/// for this type, so encoding always succeeds.
#[verifier::external_body]
pub(crate) fn encode_state(f: &BloomState) -> (r: Option<Vec<u8>>)
    ensures
        r is Some,
        r is Some ==> r->0@ == bloom_encoding(*f),
{
    postcard::to_allocvec(&f.filter).ok()
}

/// Decodes a filter from bytes produced by the serialization codec. Decoding
/// any filter's encoding succeeds and restores a filter with the same
/// membership answers; other byte strings may be rejected. The decoded
/// filter's inserted ledger starts empty — the bytes do not say which items
/// set the bits — so it satisfies the no-false-negative invariant and its
/// membership answers are exactly the encoded filter's.
pub fn bloom_filter_deserialize(bytes: &Vec<u8>) -> (r: Option<PgBloomFilter>)
    ensures
        r is Some ==> (r->0).elems() == Set::<Seq<u8>>::empty() && (r->0).inv(),
        forall|f: PgBloomFilter|
            bytes@ == #[trigger] filter_encoding(f) ==> {
                &&& r is Some
                &&& forall|x: Seq<u8>|
                    #[trigger] (r->0).may_contain(x) == f.may_contain(x)
            },
{
    match decode_state(bytes) {
        Some(state) => Some(PgBloomFilter { state, inserted: Ghost(Set::empty()) }),
        None => None,
    }
}

/// Relies on `postcard::from_bytes` and `fastbloom`'s derived `Deserialize`:
/// decoding an encoding restores the encoded bit array, hash count and hasher
/// key, so every membership answer carries over. A decoded state whose bit
/// array is empty is rejected here — the one decision this trusted body
/// takes, needed because a membership test on such a state would index out of
/// bounds; no state this library builds has an empty bit array.
#[verifier::external_body]
fn decode_state(bytes: &Vec<u8>) -> (r: Option<BloomState>)
    ensures
        forall|f: BloomState|
            bytes@ == #[trigger] bloom_encoding(f) ==> {
                &&& r is Some
                &&& forall|x: Seq<u8>|
                    #[trigger] bloom_may_contain(r->0, x) == bloom_may_contain(f, x)
            },
{
    match postcard::from_bytes::<fastbloom::BloomFilter>(bytes.as_slice()) {
        Ok(filter) => {
            if filter.num_bits() > 0 {
                Some(BloomState { filter })
            } else {
                None
            }
        },
        Err(_) => None,
    }
}

/// Round trip: two filters with the same membership answers — as a decoded
/// filter and the filter it was encoded from have — answer every batch
/// identically, position for position.
pub proof fn lemma_equivalent_filters_agree(
    f: PgBloomFilter,
    g: PgBloomFilter,
    items: Seq<Option<Seq<u8>>>,
)
    requires
        forall|x: Seq<u8>| #[trigger] f.may_contain(x) == g.may_contain(x),
    ensures
        batch_query(f, items) == batch_query(g, items),
{
    assert(batch_query(f, items) =~= batch_query(g, items));
}

} // verus!
