//! The filter engine: a bloom filter over byte strings, fixed in capacity and
//! hash parametrization once built.
//!
//! The bit array and the hashing are `fastbloom::BloomFilter`'s; Verus cannot
//! read that type (its default hasher type is private to `fastbloom`), so it
//! is held in the opaque `BloomState`, and what a membership test on a given
//! state answers is captured by one uninterpreted name, `bloom_may_contain`.
//! A membership test is a pure function of the state (its bits and its hasher
//! key) and the item, so the name is deterministic. The trusted wrappers at
//! the bottom of this file say, over that name, exactly what `fastbloom`'s
//! source shows: a fresh state answers false everywhere; inserting an item
//! makes its own answer true, never turns any other answer from true to false
//! (insertion only sets bits), and reports whether the item already tested
//! positive before the call.
//!
//! The set of items inserted so far is not a function of the state — a filter
//! does not remember which items set its bits — so it is not named. Instead
//! `PgBloomFilter` carries it as a ghost ledger beside the state, maintained
//! by the verified constructors and insertions, and the no-false-negative
//! invariant (`inv`: every item on the ledger tests positive) is proved from
//! the membership clauses alone.

use vstd::prelude::*;

use crate::FilterError;

verus! {

/// The opaque state of a bloom filter: `fastbloom`'s bit array, hash count
/// and hasher key — everything a membership answer depends on.
#[verifier::external_body]
pub struct BloomState {
    pub(crate) filter: fastbloom::BloomFilter,
}

/// What a membership test on the state answers for a byte string. The answer
/// is a pure function of the state's bit array and hasher key, hence of the
/// state value alone.
pub uninterp spec fn bloom_may_contain(f: BloomState, item: Seq<u8>) -> bool;

/// A bloom filter over byte strings.
///
/// False positives are possible; false negatives are not: a membership test
/// for an inserted item is guaranteed to answer true.
pub struct PgBloomFilter {
    pub(crate) state: BloomState,
    pub(crate) inserted: Ghost<Set<Seq<u8>>>,
}

/// The sequence of byte strings behind a nullable batch of owned items.
pub open spec fn batch_view(items: Seq<Option<Vec<u8>>>) -> Seq<Option<Seq<u8>>> {
    Seq::new(items.len(), |i: int| opt_bytes_view(items[i]))
}

/// The byte string behind one nullable owned item.
pub open spec fn opt_bytes_view(item: Option<Vec<u8>>) -> Option<Seq<u8>> {
    match item {
        Some(x) => Some(x@),
        None => None,
    }
}

/// The answer of one batch position: a null item is never tested and maps to
/// false; a present item is tested against the filter.
pub open(crate) spec fn query_one(f: PgBloomFilter, item: Option<Seq<u8>>) -> bool {
    match item {
        Some(x) => f.may_contain(x),
        None => false,
    }
}

/// The answer of a whole batch, position by position, in input order.
pub open(crate) spec fn batch_query(f: PgBloomFilter, items: Seq<Option<Seq<u8>>>) -> Seq<bool> {
    Seq::new(items.len(), |i: int| query_one(f, items[i]))
}

/// How many entries of the batch are non-null.
pub open spec fn count_non_null(items: Seq<Option<Seq<u8>>>) -> int
    decreases items.len(),
{
    if items.len() == 0 {
        0
    } else {
        count_non_null(items.drop_last()) + if items.last() is Some { 1int } else { 0int }
    }
}

/// The set of byte strings carried by the non-null entries of the batch.
pub open spec fn non_null_set(items: Seq<Option<Seq<u8>>>) -> Set<Seq<u8>>
    decreases items.len(),
{
    if items.len() == 0 {
        Set::empty()
    } else {
        match items.last() {
            Some(x) => non_null_set(items.drop_last()).insert(x),
            None => non_null_set(items.drop_last()),
        }
    }
}

impl PgBloomFilter {
    /// The ledger of byte strings inserted so far.
    pub open(crate) spec fn elems(self) -> Set<Seq<u8>> {
        self.inserted@
    }

    /// What a membership test answers for `item`.
    pub open(crate) spec fn may_contain(self, item: Seq<u8>) -> bool {
        bloom_may_contain(self.state, item)
    }

    /// No false negatives: every item on the inserted ledger tests positive.
    /// Constructors establish this and every mutation preserves it.
    pub open(crate) spec fn inv(self) -> bool {
        forall|x: Seq<u8>| self.elems().contains(x) ==> self.may_contain(x)
    }

    /// Builds a filter for the target false-positive rate, given in parts per
    /// million, sized for `expected_items` insertions. Fails with
    /// `InvalidParameter` if and only if the rate is not strictly between
    /// 0 and 1.
    pub fn create(false_positive_ppm: u64, expected_items: u64) -> (r: Result<
        PgBloomFilter,
        FilterError,
    >)
        requires
            expected_items <= 0xFFFF_FFFF,
        ensures
            r is Err <==> !(1 <= false_positive_ppm < 1_000_000),
            r is Err ==> r->Err_0 == FilterError::InvalidParameter,
            r is Ok ==> (r->Ok_0).elems() == Set::<Seq<u8>>::empty(),
            r is Ok ==> forall|x: Seq<u8>| !(r->Ok_0).may_contain(x),
            r is Ok ==> (r->Ok_0).inv(),
    {
        if false_positive_ppm < 1 || false_positive_ppm >= 1_000_000 {
            return Err(FilterError::InvalidParameter);
        }
        let num_bits = bloom_num_bits(false_positive_ppm, expected_items);
        let state = fresh_state(num_bits, expected_items);
        Ok(PgBloomFilter { state, inserted: Ghost(Set::empty()) })
    }

    /// Builds a filter sized for `items.len()` and inserts every non-null
    /// entry; null entries are skipped. Fails with `InvalidParameter` if and
    /// only if the rate is out of range.
    pub fn create_from_items(false_positive_ppm: u64, items: &Vec<Option<Vec<u8>>>) -> (r: Result<
        PgBloomFilter,
        FilterError,
    >)
        requires
            items@.len() <= 0xFFFF_FFFF,
        ensures
            r is Err <==> !(1 <= false_positive_ppm < 1_000_000),
            r is Err ==> r->Err_0 == FilterError::InvalidParameter,
            r is Ok ==> (r->Ok_0).elems() == non_null_set(batch_view(items@)),
            r is Ok ==> (r->Ok_0).inv(),
    {
        let mut filter = match Self::create(false_positive_ppm, items.len() as u64) {
            Ok(f) => f,
            Err(e) => {
                return Err(e);
            },
        };
        let ghost all = batch_view(items@);
        let mut i: usize = 0;
        while i < items.len()
            invariant
                i <= items@.len(),
                all == batch_view(items@),
                all.len() == items@.len(),
                filter.elems() == non_null_set(all.take(i as int)),
                filter.inv(),
            decreases items@.len() - i,
        {
            proof {
                assert(all.take(i + 1).drop_last() =~= all.take(i as int));
                assert(all.take(i + 1).last() == all[i as int]);
            }
            match &items[i] {
                Some(item) => {
                    filter.insert(item);
                },
                None => {
                    proof {
                        assert(non_null_set(all.take(i + 1)) =~= non_null_set(
                            all.take(i as int),
                        ));
                    }
                },
            }
            i = i + 1;
        }
        proof {
            assert(all.take(all.len() as int) =~= all);
        }
        Ok(filter)
    }

    /// Tests whether `item` is possibly in the filter. No false negatives for
    /// inserted items; false positives occur at roughly the configured rate.
    pub fn contains(&self, item: &Vec<u8>) -> (r: bool)
        ensures
            r == self.may_contain(item@),
    {
        raw_contains(&self.state, item)
    }

    /// One batch position: a null item answers false, a present item is
    /// tested against the filter.
    pub fn contains_optional(&self, item: &Option<Vec<u8>>) -> (r: bool)
        ensures
            r == query_one(*self, opt_bytes_view(*item)),
    {
        match item {
            Some(x) => raw_contains(&self.state, x),
            None => false,
        }
    }

    /// Inserts `item`, and reports whether it may have already been present:
    /// exactly what a membership test answered before this call.
    pub fn insert(&mut self, item: &Vec<u8>) -> (r: bool)
        ensures
            final(self).elems() == old(self).elems().insert(item@),
            final(self).may_contain(item@),
            forall|x: Seq<u8>|
                old(self).may_contain(x) ==> final(self).may_contain(x),
            r == old(self).may_contain(item@),
            old(self).inv() ==> final(self).inv(),
    {
        let r = raw_insert(&mut self.state, item);
        self.inserted = Ghost(self.inserted@.insert(item@));
        proof {
            if old(self).inv() {
                assert forall|x: Seq<u8>| self.elems().contains(x) implies self.may_contain(
                    x,
                ) by {
                    if x == item@ {
                        assert(self.may_contain(item@));
                    } else {
                        assert(old(self).elems().contains(x));
                        assert(old(self).may_contain(x));
                    }
                }
            }
        }
        r
    }

    /// Tests every item of a non-nullable batch, in input order.
    pub fn contains_batch(&self, items: &Vec<Vec<u8>>) -> (r: Vec<bool>)
        ensures
            r@.len() == items@.len(),
            forall|i: int| 0 <= i < items@.len() ==> r@[i] == self.may_contain(items@[i]@),
    {
        let mut out: Vec<bool> = Vec::new();
        let mut i: usize = 0;
        while i < items.len()
            invariant
                i <= items@.len(),
                out@.len() == i,
                forall|j: int| 0 <= j < i ==> out@[j] == self.may_contain(items@[j]@),
            decreases items@.len() - i,
        {
            out.push(raw_contains(&self.state, &items[i]));
            i = i + 1;
        }
        out
    }

    /// Tests every item of a non-nullable batch given as a plain list; same
    /// answers as `contains_batch`.
    pub fn contains_non_null_batch(&self, items: &Vec<Vec<u8>>) -> (r: Vec<bool>)
        ensures
            r@.len() == items@.len(),
            forall|i: int| 0 <= i < items@.len() ==> r@[i] == self.may_contain(items@[i]@),
    {
        self.contains_batch(items)
    }

    /// Tests every entry of a nullable batch, in input order; null entries
    /// answer false.
    pub fn contains_optional_batch(&self, items: &Vec<Option<Vec<u8>>>) -> (r: Vec<bool>)
        ensures
            r@ == batch_query(*self, batch_view(items@)),
    {
        let mut out: Vec<bool> = Vec::new();
        let mut i: usize = 0;
        while i < items.len()
            invariant
                i <= items@.len(),
                out@.len() == i,
                forall|j: int|
                    0 <= j < i ==> out@[j] == query_one(*self, batch_view(items@)[j]),
            decreases items@.len() - i,
        {
            out.push(self.contains_optional(&items[i]));
            i = i + 1;
        }
        proof {
            assert(out@ =~= batch_query(*self, batch_view(items@)));
        }
        out
    }

    /// Tests every entry of a nullable batch with a data-parallel map that
    /// partitions by index and reassembles by index: the answers equal
    /// `contains_optional_batch`'s, position for position.
    pub fn contains_batch_parallel(&self, items: &Vec<Option<Vec<u8>>>) -> (r: Vec<bool>)
        ensures
            r@ == batch_query(*self, batch_view(items@)),
    {
        let out = self.par_query(items);
        proof {
            assert(out@ =~= batch_query(*self, batch_view(items@)));
        }
        out
    }

    /// `contains_batch_parallel` over an owned batch.
    pub fn contains_batch_par(&self, items: Vec<Option<Vec<u8>>>) -> (r: Vec<bool>)
        ensures
            r@ == batch_query(*self, batch_view(items@)),
    {
        self.contains_batch_parallel(&items)
    }

    /// Inserts every non-null entry of the batch and returns how many entries
    /// were non-null. Already-applied insertions stay in effect whatever
    /// happens later; there is no rollback.
    pub fn insert_batch(&mut self, items: &Vec<Option<Vec<u8>>>) -> (r: i32)
        requires
            items@.len() <= 0x7FFF_FFFF,
        ensures
            r == count_non_null(batch_view(items@)),
            final(self).elems() == old(self).elems().union(non_null_set(batch_view(items@))),
            forall|x: Seq<u8>|
                old(self).may_contain(x) ==> final(self).may_contain(x),
            old(self).inv() ==> final(self).inv(),
    {
        let ghost all = batch_view(items@);
        let ghost start = *self;
        let mut count: i32 = 0;
        let mut i: usize = 0;
        while i < items.len()
            invariant
                i <= items@.len(),
                all == batch_view(items@),
                all.len() == items@.len(),
                items@.len() <= 0x7FFF_FFFF,
                count == count_non_null(all.take(i as int)),
                self.elems() == start.elems().union(non_null_set(all.take(i as int))),
                forall|x: Seq<u8>| start.may_contain(x) ==> self.may_contain(x),
                start.inv() ==> self.inv(),
            decreases items@.len() - i,
        {
            proof {
                assert(all.take(i + 1).drop_last() =~= all.take(i as int));
                assert(all.take(i + 1).last() == all[i as int]);
                lemma_count_non_null_bounds(all.take(i + 1));
            }
            match &items[i] {
                Some(item) => {
                    self.insert(item);
                    count = count + 1;
                    proof {
                        assert(self.elems() =~= start.elems().union(
                            non_null_set(all.take(i + 1)),
                        ));
                    }
                },
                None => {
                    proof {
                        assert(non_null_set(all.take(i + 1)) =~= non_null_set(
                            all.take(i as int),
                        ));
                    }
                },
            }
            i = i + 1;
        }
        proof {
            assert(all.take(all.len() as int) =~= all);
        }
        count
    }

    /// Relies on `rayon`: `par_iter` over a `Vec` is an indexed parallel
    /// iterator, and `collect` on an indexed parallel iterator reassembles
    /// the answers in the original index order.
    #[verifier::external_body]
    fn par_query(&self, items: &Vec<Option<Vec<u8>>>) -> (r: Vec<bool>)
        ensures
            r@.len() == items@.len(),
            forall|i: int|
                0 <= i < items@.len() ==> r@[i] == query_one(*self, batch_view(items@)[i]),
    {
        rayon::iter::ParallelIterator::collect::<Vec<bool>>(rayon::iter::ParallelIterator::map(
            rayon::iter::IntoParallelRefIterator::par_iter(items),
            |item| self.contains_optional(item),
        ))
    }
}

/// Relies on `fastbloom::BloomFilter::contains`: a pure read of the state's
/// bits at the item's hash positions.
#[verifier::external_body]
fn raw_contains(f: &BloomState, item: &Vec<u8>) -> (r: bool)
    ensures
        r == bloom_may_contain(*f, item@),
{
    f.filter.contains(item.as_slice())
}

/// Relies on `fastbloom::BloomFilter::insert`: it sets the item's hash
/// positions in the bit array (never clearing any bit, so every answer that
/// was true stays true and the item itself answers true afterwards) and
/// returns whether all those bits were already set, which is exactly what
/// `contains` answered before the call.
#[verifier::external_body]
fn raw_insert(f: &mut BloomState, item: &Vec<u8>) -> (r: bool)
    ensures
        bloom_may_contain(*final(f), item@),
        forall|x: Seq<u8>|
            bloom_may_contain(*old(f), x) ==> bloom_may_contain(*final(f), x),
        r == bloom_may_contain(*old(f), item@),
{
    f.filter.insert(item.as_slice())
}

/// Relies on the `fastbloom` builder: `with_num_bits(n).expected_items(k)`
/// returns a filter with every bit clear, so every membership test answers
/// false (`contains` requires at least one set bit at the item's hash
/// positions).
#[verifier::external_body]
fn fresh_state(num_bits: u64, expected_items: u64) -> (r: BloomState)
    requires
        1 <= num_bits,
    ensures
        forall|x: Seq<u8>| !bloom_may_contain(r, x),
{
    BloomState {
        filter: fastbloom::BloomFilter::with_num_bits(num_bits as usize).expected_items(
            expected_items as usize,
        ),
    }
}

/// A batch has between 0 and `len` non-null entries.
pub proof fn lemma_count_non_null_bounds(items: Seq<Option<Seq<u8>>>)
    ensures
        0 <= count_non_null(items) <= items.len(),
    decreases items.len(),
{
    if items.len() > 0 {
        lemma_count_non_null_bounds(items.drop_last());
    }
}

/// The number of bits for a filter with the given false-positive rate (parts
/// per million) and expected item count: the standard sizing rule
/// `bits = items * log2(1/rate) / ln 2`, evaluated conservatively in integers
/// (ceiling logarithm, and 1.443 rounding 1/ln 2 up), floored at 64 bits.
pub open spec fn spec_num_bits(false_positive_ppm: int, expected_items: int) -> int {
    let inverse_rate = (1_000_000 + false_positive_ppm - 1) / false_positive_ppm;
    let raw = expected_items * spec_ceil_log2(inverse_rate) * 1443 / 1000;
    if raw < 64 {
        64
    } else {
        raw
    }
}

/// The ceiling of the base-2 logarithm: the smallest `c` with `2^c >= n`.
pub open spec fn spec_ceil_log2(n: int) -> int
    decreases n,
{
    if n <= 1 {
        0
    } else {
        1 + spec_ceil_log2((n + 1) / 2)
    }
}

proof fn lemma_ceil_log2_nonneg(n: int)
    ensures
        spec_ceil_log2(n) >= 0,
    decreases n,
{
    if n > 1 {
        lemma_ceil_log2_nonneg((n + 1) / 2);
    }
}

proof fn lemma_ceil_log2_mono(a: int, b: int)
    requires
        1 <= a <= b,
    ensures
        spec_ceil_log2(a) <= spec_ceil_log2(b),
    decreases b,
{
    if a <= 1 {
        lemma_ceil_log2_nonneg(b);
    } else {
        assert(1 <= (a + 1) / 2 && (a + 1) / 2 <= (b + 1) / 2 && (b + 1) / 2 < b)
            by (nonlinear_arith)
            requires
                2 <= a <= b,
        ;
        lemma_ceil_log2_mono((a + 1) / 2, (b + 1) / 2);
    }
}

fn ceil_log2(n: u64) -> (r: u64)
    requires
        1 <= n <= 0x100000,
    ensures
        r == spec_ceil_log2(n as int),
        r <= 20,
    decreases n,
{
    proof {
        lemma_ceil_log2_mono(n as int, 0x100000);
        assert(spec_ceil_log2(0x100000) == 20) by {
            reveal_with_fuel(spec_ceil_log2, 21);
        }
    }
    if n <= 1 {
        0
    } else {
        1 + ceil_log2((n + 1) / 2)
    }
}

/// Sizes a filter's bit array for the given rate and expected item count.
fn bloom_num_bits(false_positive_ppm: u64, expected_items: u64) -> (r: u64)
    requires
        1 <= false_positive_ppm < 1_000_000,
        expected_items <= 0xFFFF_FFFF,
    ensures
        r == spec_num_bits(false_positive_ppm as int, expected_items as int),
        64 <= r,
{
    let inverse_rate = (1_000_000 + false_positive_ppm - 1) / false_positive_ppm;
    proof {
        assert(1 <= inverse_rate <= 0x100000) by (nonlinear_arith)
            requires
                1 <= false_positive_ppm < 1_000_000,
                inverse_rate == (1_000_000 + false_positive_ppm - 1) as int / false_positive_ppm as int,
        ;
    }
    let c = ceil_log2(inverse_rate);
    proof {
        assert(expected_items * c * 1443 <= 0xFFFF_FFFFu64 * 20 * 1443) by (nonlinear_arith)
            requires
                expected_items <= 0xFFFF_FFFF,
                0 <= c <= 20,
        ;
    }
    let raw = expected_items * c * 1443 / 1000;
    if raw < 64 {
        64
    } else {
        raw
    }
}

} // verus!
