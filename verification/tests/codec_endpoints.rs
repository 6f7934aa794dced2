//! Round-trip serialization, bound endpoints, and the statistical
//! false-positive bound.

use bloomer::api::{
    bloom_filter_contains, bloom_filter_contains_batch, bloom_filter_serialize, new_bloom_filter,
};
use bloomer::cache::HandleCache;
use bloomer::codec::bloom_filter_deserialize;
use bloomer::registry::FilterStore;
use bloomer::FilterError;

fn bytes(s: &str) -> Vec<u8> {
    s.as_bytes().to_vec()
}

#[test]
fn serialize_round_trip_preserves_answers() {
    let mut store = FilterStore::new();
    let mut cache = HandleCache::new();
    let handle = new_bloom_filter(&mut store, 10_000, 1000).unwrap();
    for i in 0..300u32 {
        store.insert(handle, &i.to_le_bytes().to_vec());
    }
    let encoded = bloom_filter_serialize(&store, handle).unwrap();
    let decoded = bloom_filter_deserialize(&encoded).unwrap();

    // a fixed probe set: the inserted items and as many never-inserted ones
    for i in 0..600u32 {
        let probe = i.to_le_bytes().to_vec();
        let original = bloom_filter_contains(&store, &mut cache, handle, &probe);
        assert_eq!(decoded.contains(&probe), original);
        if i < 300 {
            assert!(original);
        }
    }
}

#[test]
fn serialize_succeeds_and_is_deterministic() {
    let mut store = FilterStore::new();
    let handle = new_bloom_filter(&mut store, 10_000, 100).unwrap();
    store.insert(handle, &bytes("payload"));
    // success is owed for every live handle
    let first = bloom_filter_serialize(&store, handle).expect("live handle must serialize");
    // and the bytes are a pure function of the filter state
    let second = bloom_filter_serialize(&store, handle).expect("live handle must serialize");
    assert_eq!(first, second);
    // a mutation may change the bytes; an insert of an item already present
    // leaves the state, hence the bytes, unchanged
    store.insert(handle, &bytes("payload"));
    let third = bloom_filter_serialize(&store, handle).expect("live handle must serialize");
    assert_eq!(first, third);
}

#[test]
fn deserialize_rejects_garbage() {
    let empty: Vec<u8> = Vec::new();
    assert!(bloom_filter_deserialize(&empty).is_none());
    let garbage = vec![0u8, 1, 2, 3, 4, 5, 6, 7, 8, 9];
    // decoding must not panic; whether it yields a filter is the codec's call
    let _ = bloom_filter_deserialize(&garbage);
}

#[test]
fn bound_endpoint_matches_batch_queries() {
    let mut store = FilterStore::new();
    let mut cache = HandleCache::new();
    let handle = new_bloom_filter(&mut store, 10_000, 1000).unwrap();
    for i in 0..100u32 {
        store.insert(handle, &i.to_le_bytes().to_vec());
    }
    let endpoint = store.create_bound_filter_function(&mut cache, handle).unwrap();
    assert_eq!(endpoint, 0);

    let mut items: Vec<Option<Vec<u8>>> = Vec::new();
    for i in 0..200u32 {
        if i % 5 == 0 {
            items.push(None);
        } else {
            items.push(Some(i.to_le_bytes().to_vec()));
        }
    }
    let through_handle = bloom_filter_contains_batch(&store, &mut cache, handle, &items);
    let through_endpoint = store._bf_contains_bound_batch(endpoint, &items);
    assert_eq!(through_handle, through_endpoint);

    assert!(store._bf_contains_bound_nanos(endpoint, &items) >= 0);
}

#[test]
fn bound_endpoint_ids_are_sequential() {
    let mut store = FilterStore::new();
    let mut cache = HandleCache::new();
    let h0 = new_bloom_filter(&mut store, 10_000, 10).unwrap();
    let h1 = new_bloom_filter(&mut store, 10_000, 10).unwrap();
    assert_eq!(store.create_bound_filter_function(&mut cache, h0).unwrap(), 0);
    assert_eq!(store.create_bound_filter_function(&mut cache, h1).unwrap(), 1);
    assert_eq!(store.create_bound_filter_function(&mut cache, h0).unwrap(), 2);
}

#[test]
fn binding_unknown_handle_fails_softly() {
    let mut store = FilterStore::new();
    let mut cache = HandleCache::new();
    let _ = new_bloom_filter(&mut store, 10_000, 10).unwrap();
    assert_eq!(
        store.create_bound_filter_function(&mut cache, 99999),
        Err(FilterError::BindingFailure)
    );
    // unknown endpoints answer the soft defaults
    let items = vec![Some(bytes("x")), None];
    assert_eq!(store._bf_contains_bound_batch(77, &items), vec![false, false]);
    assert_eq!(store._bf_contains_bound_nanos(77, &items), 0);
}

#[test]
fn false_positive_fraction_near_target() {
    let mut store = FilterStore::new();
    let mut cache = HandleCache::new();
    // target rate 0.02, sized for the thousand items inserted below
    let handle = new_bloom_filter(&mut store, 20_000, 1000).unwrap();
    for i in 0..1000u32 {
        store.insert(handle, &i.to_le_bytes().to_vec());
    }
    let probes = 20_000u32;
    let mut positives = 0u32;
    for i in 1000..(1000 + probes) {
        if bloom_filter_contains(&store, &mut cache, handle, &i.to_le_bytes().to_vec()) {
            positives += 1;
        }
    }
    let observed = positives as f64 / probes as f64;
    // the sizing is conservative, so the observed fraction stays at or below
    // roughly the target rate (with sampling slack)
    assert!(observed <= 0.03, "observed false-positive fraction {observed}");
}
