//! The filter engine and the handle resolution path, exercised directly.

use bloomer::cache::{get_bloom_filter_handle, HandleCache};
use bloomer::filter::PgBloomFilter;
use bloomer::registry::FilterStore;
use bloomer::api::new_bloom_filter;
use bloomer::FilterError;

fn bytes(s: &str) -> Vec<u8> {
    s.as_bytes().to_vec()
}

#[test]
fn engine_insert_reports_prior_presence() {
    let mut filter = PgBloomFilter::create(10_000, 100).unwrap();
    assert!(!filter.contains(&bytes("x")));
    assert!(!filter.insert(&bytes("x")));
    assert!(filter.contains(&bytes("x")));
    assert!(filter.insert(&bytes("x")));
}

#[test]
fn engine_create_rejects_bad_rate() {
    assert_eq!(
        PgBloomFilter::create(0, 100).err(),
        Some(FilterError::InvalidParameter)
    );
    assert_eq!(
        PgBloomFilter::create(1_000_000, 100).err(),
        Some(FilterError::InvalidParameter)
    );
    assert!(PgBloomFilter::create(999_999, 0).is_ok());
    assert!(PgBloomFilter::create(1, 10).is_ok());
}

#[test]
fn engine_batches_agree() {
    let mut filter = PgBloomFilter::create(10_000, 100).unwrap();
    let count = filter.insert_batch(&vec![
        Some(bytes("a")),
        None,
        Some(bytes("b")),
    ]);
    assert_eq!(count, 2);

    let plain = vec![bytes("a"), bytes("b"), bytes("c")];
    let non_null = filter.contains_non_null_batch(&plain);
    assert_eq!(non_null, filter.contains_batch(&plain));
    assert!(non_null[0] && non_null[1]);

    let nullable = vec![Some(bytes("a")), None, Some(bytes("b")), Some(bytes("c"))];
    let sequential = filter.contains_optional_batch(&nullable);
    assert_eq!(sequential, filter.contains_batch_parallel(&nullable));
    assert_eq!(sequential, filter.contains_batch_par(nullable));
    assert!(sequential[0] && !sequential[1] && sequential[2]);
}

#[test]
fn engine_create_from_items_inserts_non_null() {
    let filter = PgBloomFilter::create_from_items(
        10_000,
        &vec![Some(bytes("p")), None, Some(bytes("q"))],
    )
    .unwrap();
    assert!(filter.contains(&bytes("p")));
    assert!(filter.contains(&bytes("q")));
    assert!(filter.contains_optional(&Some(bytes("p"))));
    assert!(!filter.contains_optional(&None));
}

#[test]
fn resolution_caches_and_resolves_through_handles() {
    let mut store = FilterStore::new();
    let mut cache = HandleCache::new();
    let id = new_bloom_filter(&mut store, 10_000, 100).unwrap();
    store.insert(id, &bytes("k"));

    assert!(get_bloom_filter_handle(&mut cache, &store, -1).is_none());
    assert!(get_bloom_filter_handle(&mut cache, &store, 5).is_none());

    // first resolution populates the cache; the second is a pure cache hit
    let first = get_bloom_filter_handle(&mut cache, &store, id).unwrap();
    let second = get_bloom_filter_handle(&mut cache, &store, id).unwrap();
    assert!(first.contains(&store, &bytes("k")));
    assert!(second.contains(&store, &bytes("k")));

    let through_handle = second.contains_batch(&store, &vec![bytes("k"), bytes("z")]);
    assert!(through_handle[0]);
    assert_eq!(
        second.contains_optional_batch(&store, &vec![Some(bytes("k")), None]),
        second.contains_batch_parallel(&store, &vec![Some(bytes("k")), None]),
    );
    assert_eq!(
        second.contains_batch_par(&store, vec![Some(bytes("k")), None]),
        vec![true, false],
    );
}
