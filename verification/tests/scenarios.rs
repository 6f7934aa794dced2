//! End-to-end scenarios through the exposed operations.

use bloomer::api::{
    bf_contains_nanos, bf_contains_parallel, bf_contains_parallel_nanos,
    bf_contains_parallel_slice, bloom_filter_contains, bloom_filter_contains_batch,
    bloom_filter_serialize, new_bloom_filter, new_bloom_filter_from_items,
};
use bloomer::cache::HandleCache;
use bloomer::registry::FilterStore;
use bloomer::FilterError;

fn bytes(s: &str) -> Vec<u8> {
    s.as_bytes().to_vec()
}

#[test]
fn concrete_scenario() {
    let mut store = FilterStore::new();
    let mut cache = HandleCache::new();

    // rate 0.01 as parts per million, sized for 1000 items
    let handle = new_bloom_filter(&mut store, 10_000, 1000).unwrap();
    assert_eq!(handle, 0);

    let may_have_been_present = store.insert(handle, &bytes("hello"));
    assert!(!may_have_been_present);

    assert!(bloom_filter_contains(&store, &mut cache, handle, &bytes("hello")));
    // Probabilistic, not guaranteed: with one item in a filter sized for a
    // thousand, a false positive here is overwhelmingly unlikely.
    assert!(!bloom_filter_contains(&store, &mut cache, handle, &bytes("world")));
}

#[test]
fn no_false_negatives() {
    let mut store = FilterStore::new();
    let mut cache = HandleCache::new();
    let handle = new_bloom_filter(&mut store, 10_000, 1000).unwrap();
    for i in 0..500u32 {
        store.insert(handle, &i.to_le_bytes().to_vec());
    }
    for i in 0..500u32 {
        assert!(bloom_filter_contains(
            &store,
            &mut cache,
            handle,
            &i.to_le_bytes().to_vec()
        ));
    }
}

#[test]
fn monotonic_handles() {
    let mut store = FilterStore::new();
    for expected in 0..5 {
        let handle = new_bloom_filter(&mut store, 10_000, 100).unwrap();
        assert_eq!(handle, expected);
    }
}

#[test]
fn unknown_handle_soft_defaults() {
    let mut store = FilterStore::new();
    let mut cache = HandleCache::new();
    let _ = new_bloom_filter(&mut store, 10_000, 100).unwrap();

    let items = vec![Some(bytes("a")), None, Some(bytes("b"))];

    assert!(!bloom_filter_contains(&store, &mut cache, 99999, &bytes("x")));
    assert_eq!(
        bloom_filter_contains_batch(&store, &mut cache, 99999, &items),
        vec![false, false, false]
    );
    assert!(!store.insert(99999, &bytes("x")));
    assert_eq!(store.insert_batch(99999, &items), 0);
    assert_eq!(bf_contains_parallel(&store, &mut cache, 99999, &items), vec![false, false, false]);
    assert_eq!(bf_contains_nanos(&store, &mut cache, 99999, &items), 0);
    assert_eq!(bf_contains_parallel_nanos(&store, &mut cache, 99999, items), 0);
    assert!(bloom_filter_serialize(&store, 99999).is_none());
    assert!(!bloom_filter_contains(&store, &mut cache, -1, &bytes("x")));
}

#[test]
fn batch_parallel_equivalence() {
    let mut store = FilterStore::new();
    let mut cache = HandleCache::new();
    let handle = new_bloom_filter(&mut store, 10_000, 1000).unwrap();
    for i in 0..200u32 {
        store.insert(handle, &i.to_le_bytes().to_vec());
    }
    let mut items: Vec<Option<Vec<u8>>> = Vec::new();
    for i in 0..400u32 {
        if i % 7 == 3 {
            items.push(None);
        } else {
            items.push(Some(i.to_le_bytes().to_vec()));
        }
    }
    let sequential = bloom_filter_contains_batch(&store, &mut cache, handle, &items);
    let parallel = bf_contains_parallel(&store, &mut cache, handle, &items);
    let parallel_slice = bf_contains_parallel_slice(&store, &mut cache, handle, &items);
    assert_eq!(sequential, parallel);
    assert_eq!(sequential, parallel_slice);
    assert_eq!(sequential.len(), items.len());
}

#[test]
fn null_position_forces_false() {
    let mut store = FilterStore::new();
    let mut cache = HandleCache::new();
    let handle = new_bloom_filter(&mut store, 10_000, 100).unwrap();
    for i in 0..50u32 {
        store.insert(handle, &i.to_le_bytes().to_vec());
    }
    let items: Vec<Option<Vec<u8>>> =
        (0..50u32).map(|i| Some(i.to_le_bytes().to_vec())).collect();
    let base = bloom_filter_contains_batch(&store, &mut cache, handle, &items);
    for hole in [0usize, 7, 49] {
        let mut nulled = items.clone();
        nulled[hole] = None;
        let out = bloom_filter_contains_batch(&store, &mut cache, handle, &nulled);
        assert!(!out[hole]);
        for j in 0..items.len() {
            if j != hole {
                assert_eq!(out[j], base[j]);
            }
        }
    }
}

#[test]
fn create_from_items_skips_nulls() {
    let mut store = FilterStore::new();
    let mut cache = HandleCache::new();
    let items = vec![Some(bytes("alpha")), None, Some(bytes("beta"))];
    let handle = new_bloom_filter_from_items(&mut store, 10_000, &items).unwrap();
    assert!(bloom_filter_contains(&store, &mut cache, handle, &bytes("alpha")));
    assert!(bloom_filter_contains(&store, &mut cache, handle, &bytes("beta")));
}

#[test]
fn insert_batch_counts_non_null() {
    let mut store = FilterStore::new();
    let mut cache = HandleCache::new();
    let handle = new_bloom_filter(&mut store, 10_000, 100).unwrap();
    let items = vec![Some(bytes("a")), None, Some(bytes("b")), None, Some(bytes("c"))];
    assert_eq!(store.insert_batch(handle, &items), 3);
    assert!(bloom_filter_contains(&store, &mut cache, handle, &bytes("a")));
    assert!(bloom_filter_contains(&store, &mut cache, handle, &bytes("b")));
    assert!(bloom_filter_contains(&store, &mut cache, handle, &bytes("c")));
}

#[test]
fn invalid_rate_is_rejected() {
    let mut store = FilterStore::new();
    assert_eq!(
        new_bloom_filter(&mut store, 0, 100),
        Err(FilterError::InvalidParameter)
    );
    assert_eq!(
        new_bloom_filter(&mut store, 1_000_000, 100),
        Err(FilterError::InvalidParameter)
    );
    assert_eq!(
        new_bloom_filter_from_items(&mut store, 2_000_000, &vec![]),
        Err(FilterError::InvalidParameter)
    );
    // a rejected creation registers nothing
    let handle = new_bloom_filter(&mut store, 10_000, 100).unwrap();
    assert_eq!(handle, 0);
}

#[test]
fn timing_probes_report_nanos() {
    let mut store = FilterStore::new();
    let mut cache = HandleCache::new();
    let handle = new_bloom_filter(&mut store, 10_000, 100).unwrap();
    store.insert(handle, &bytes("x"));
    let items = vec![Some(bytes("x")), None, Some(bytes("y"))];
    assert!(bf_contains_nanos(&store, &mut cache, handle, &items) >= 0);
    assert!(bf_contains_parallel_nanos(&store, &mut cache, handle, items) >= 0);
}

#[test]
fn lookup_reads_the_registry() {
    let mut store = FilterStore::new();
    let handle = new_bloom_filter(&mut store, 10_000, 100).unwrap();
    store.insert(handle, &bytes("needle"));
    assert_eq!(store.num_filters(), 1);
    assert!(store.lookup(handle).unwrap().contains(&bytes("needle")));
    assert!(store.lookup(1).is_none());
    assert!(store.lookup(-3).is_none());
}

#[test]
fn error_messages_describe_each_variant() {
    assert!(FilterError::InvalidParameter.message().contains("rate"));
    assert!(FilterError::NotFound.message().contains("handle"));
    assert!(FilterError::EncodingFailure.message().contains("encoded"));
    assert!(FilterError::BindingFailure.message().contains("bind"));
}
