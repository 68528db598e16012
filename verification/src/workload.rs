//! What a run of random keys does to a container, as mathematics.
//!
//! The runners draw their keys at random, so their results are stated as
//! replays: for some sequence of keys in range, the container and the counts
//! are exactly what these functions compute from that sequence.

use vstd::prelude::*;

verus! {

/// The number of rounds that a loop from zero up to `n` makes.
pub open spec fn batch_len(n: i64) -> nat {
    if n > 0 {
        n as nat
    } else {
        0
    }
}

/// Every key lies in `[0, max)`.
pub open spec fn all_below(keys: Seq<i64>, max: i64) -> bool {
    forall|i: int| 0 <= i < keys.len() ==> 0 <= #[trigger] keys[i] < max
}

/// The value that the insert phase stores with `key`.
pub open spec fn value_for(key: i64) -> i64 {
    (key - 1) as i64
}

/// The entries after each of `keys` was inserted with its value: what was
/// there before, with every key of `keys` bound to its value.
pub open spec fn after_inserts(entries: Map<i64, i64>, keys: Seq<i64>) -> Map<i64, i64> {
    Map::new(
        |k: i64| entries.contains_key(k) || keys.contains(k),
        |k: i64|
            if keys.contains(k) {
                value_for(k)
            } else {
                entries[k]
            },
    )
}

/// How many of `keys` are absent from `entries`, counted with repetition.
pub open spec fn misses_among(entries: Map<i64, i64>, keys: Seq<i64>) -> nat
    decreases keys.len(),
{
    if keys.len() == 0 {
        0
    } else {
        let earlier = misses_among(entries, keys.drop_last());
        if entries.contains_key(keys.last()) {
            earlier
        } else {
            earlier + 1
        }
    }
}

/// The checksum after `v` was added to it, modulo 256.
pub open spec fn folded(sum: u8, v: i64) -> u8 {
    ((sum + v) % 256) as u8
}

/// The low byte of a 64-bit value is its remainder by 256.
pub proof fn lemma_low_byte(v: i64)
    ensures
        (v as u8) as int == (v as int) % 256,
{
    let u = v as u64;
    assert(v as u8 == (v as u64) as u8) by (bit_vector);
    assert((u as u8) == u % 256) by (bit_vector);
    if v < 0 {
        assert(u == v + 0x1_0000_0000_0000_0000) by (bit_vector)
            requires
                v < 0,
                u == v as u64,
        ;
    }
}

/// The checksum after the value found under each of `keys` was folded in;
/// a key that is absent leaves it as it is.
pub open spec fn sum_over_hits(sum: u8, entries: Map<i64, i64>, keys: Seq<i64>) -> u8
    decreases keys.len(),
{
    if keys.len() == 0 {
        sum
    } else {
        let earlier = sum_over_hits(sum, entries, keys.drop_last());
        if entries.contains_key(keys.last()) {
            folded(earlier, entries[keys.last()])
        } else {
            earlier
        }
    }
}

/// The checksum after each of `keys` itself was folded in.
pub open spec fn sum_over_keys(sum: u8, keys: Seq<i64>) -> u8
    decreases keys.len(),
{
    if keys.len() == 0 {
        sum
    } else {
        folded(sum_over_keys(sum, keys.drop_last()), keys.last())
    }
}

/// The entries after each of `keys` was removed: what was there before,
/// without the keys of `keys`.
pub open spec fn after_removals(entries: Map<i64, i64>, keys: Seq<i64>) -> Map<i64, i64> {
    entries.remove_keys(keys.to_set())
}

/// The keys after insertions are those that were there and those that
/// were inserted.
pub proof fn lemma_after_inserts_keys(entries: Map<i64, i64>, keys: Seq<i64>)
    ensures
        after_inserts(entries, keys).dom() == entries.dom().union(keys.to_set()),
{
    assert(after_inserts(entries, keys).dom() =~= entries.dom().union(keys.to_set()));
}

/// Inserting no key changes nothing.
pub proof fn lemma_after_inserts_none(entries: Map<i64, i64>)
    ensures
        after_inserts(entries, Seq::empty()) == entries,
{
    assert(after_inserts(entries, Seq::empty()) =~= entries);
}

/// One more key at the end of `keys` is one more insertion.
pub proof fn lemma_after_inserts_push(entries: Map<i64, i64>, keys: Seq<i64>, key: i64)
    ensures
        after_inserts(entries, keys.push(key)) == after_inserts(entries, keys).insert(
            key,
            value_for(key),
        ),
{
    let longer = keys.push(key);
    assert(longer[keys.len() as int] == key);
    assert forall|k: i64| longer.contains(k) <==> keys.contains(k) || k == key by {
        if keys.contains(k) {
            let i = choose|i: int| 0 <= i < keys.len() && keys[i] == k;
            assert(longer[i] == k);
        }
    }
    assert(after_inserts(entries, longer) =~= after_inserts(entries, keys).insert(
        key,
        value_for(key),
    ));
}

/// Removing no key changes nothing.
pub proof fn lemma_after_removals_none(entries: Map<i64, i64>)
    ensures
        after_removals(entries, Seq::empty()) == entries,
{
    assert(after_removals(entries, Seq::empty()) =~= entries);
}

/// One more key at the end of `keys` is one more removal.
pub proof fn lemma_after_removals_push(entries: Map<i64, i64>, keys: Seq<i64>, key: i64)
    ensures
        after_removals(entries, keys.push(key)) == after_removals(entries, keys).remove(key),
{
    let longer = keys.push(key);
    assert(longer[keys.len() as int] == key);
    assert forall|k: i64| longer.contains(k) <==> keys.contains(k) || k == key by {
        if keys.contains(k) {
            let i = choose|i: int| 0 <= i < keys.len() && keys[i] == k;
            assert(longer[i] == k);
        }
    }
    assert(after_removals(entries, longer) =~= after_removals(entries, keys).remove(key));
}

/// A key occurs in `a + b` where it occurs in `a` or in `b`.
proof fn lemma_concat_contains(a: Seq<i64>, b: Seq<i64>)
    ensures
        forall|k: i64| (a + b).contains(k) <==> a.contains(k) || b.contains(k),
{
    assert forall|k: i64| (a + b).contains(k) <==> a.contains(k) || b.contains(k) by {
        if a.contains(k) {
            let i = choose|i: int| 0 <= i < a.len() && a[i] == k;
            assert((a + b)[i] == k);
        }
        if b.contains(k) {
            let i = choose|i: int| 0 <= i < b.len() && b[i] == k;
            assert((a + b)[a.len() + i] == k);
        }
    }
}

/// Inserting `a` and then `b` is inserting `a + b`.
pub proof fn lemma_after_inserts_concat(entries: Map<i64, i64>, a: Seq<i64>, b: Seq<i64>)
    ensures
        after_inserts(entries, a + b) == after_inserts(after_inserts(entries, a), b),
{
    lemma_concat_contains(a, b);
    assert(after_inserts(entries, a + b) =~= after_inserts(after_inserts(entries, a), b));
}

/// No more keys are missed than were looked up.
pub proof fn lemma_misses_at_most(entries: Map<i64, i64>, keys: Seq<i64>)
    ensures
        misses_among(entries, keys) <= keys.len(),
    decreases keys.len(),
{
    if keys.len() > 0 {
        lemma_misses_at_most(entries, keys.drop_last());
    }
}

/// Folding hits over `a` and then over `b` is folding them over `a + b`.
pub proof fn lemma_sum_over_hits_concat(sum: u8, entries: Map<i64, i64>, a: Seq<i64>, b: Seq<i64>)
    ensures
        sum_over_hits(sum, entries, a + b) == sum_over_hits(
            sum_over_hits(sum, entries, a),
            entries,
            b,
        ),
    decreases b.len(),
{
    if b.len() == 0 {
        assert(a + b =~= a);
    } else {
        lemma_sum_over_hits_concat(sum, entries, a, b.drop_last());
        assert((a + b).drop_last() =~= a + b.drop_last());
    }
}

/// Folding keys over `a` and then over `b` is folding them over `a + b`.
pub proof fn lemma_sum_over_keys_concat(sum: u8, a: Seq<i64>, b: Seq<i64>)
    ensures
        sum_over_keys(sum, a + b) == sum_over_keys(sum_over_keys(sum, a), b),
    decreases b.len(),
{
    if b.len() == 0 {
        assert(a + b =~= a);
    } else {
        lemma_sum_over_keys_concat(sum, a, b.drop_last());
        assert((a + b).drop_last() =~= a + b.drop_last());
    }
}

/// Removing `a` and then `b` is removing `a + b`.
pub proof fn lemma_after_removals_concat(entries: Map<i64, i64>, a: Seq<i64>, b: Seq<i64>)
    ensures
        after_removals(entries, a + b) == after_removals(after_removals(entries, a), b),
{
    lemma_concat_contains(a, b);
    assert(after_removals(entries, a + b) =~= after_removals(after_removals(entries, a), b));
}

} // verus!
