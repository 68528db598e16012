//! The timed runner: throughput of insertions and lookups, batch by batch.

use crate::clock::elapsed;
use crate::clock::now;
use crate::container::lookup;
use crate::container::Container;
use crate::keys::UniformKeys;
use crate::workload::after_inserts;
use crate::workload::all_below;
use crate::workload::batch_len;
use crate::workload::folded;
use crate::workload::lemma_after_inserts_concat;
use crate::workload::lemma_after_inserts_keys;
use crate::workload::lemma_after_inserts_none;
use crate::workload::lemma_after_inserts_push;
use crate::workload::lemma_low_byte;
use crate::workload::lemma_misses_at_most;
use crate::workload::lemma_sum_over_hits_concat;
use crate::workload::lemma_sum_over_keys_concat;
use crate::workload::misses_among;
use crate::workload::sum_over_hits;
use crate::workload::sum_over_keys;
use crate::workload::value_for;
use vstd::prelude::*;

verus! {

/// One measurement: a batch of operations and the time it took.
#[derive(Clone, Copy, Debug, PartialEq, Eq)]
pub struct Sample {
    /// The number of operations made up to the end of the batch.
    pub iter: i64,
    /// What was counted at the end of the batch: the container's size after
    /// insertions, the number of misses after lookups.
    pub observed: u64,
    /// The nanoseconds that the batch took.
    pub elapsed_ns: u64,
}

/// The measurements of one container.
#[derive(Debug, PartialEq, Eq)]
pub struct Timings {
    /// One sample for each batch of insertions.
    pub insert: Vec<Sample>,
    /// One sample for each batch of lookups.
    pub lookup: Vec<Sample>,
    /// The nanoseconds that each batch of bare draws took.
    pub rng: Vec<u64>,
    /// The low bytes of all that the lookups found and the bare draws drew,
    /// summed modulo 256. It carries no meaning; it is reported so that the
    /// lookups cannot be optimised away.
    pub checksum: u8,
}

/// The operation counts of all batches fit in 64 bits.
pub open spec fn counts_fit(repeats: i64, count: i64) -> bool {
    count > 0 ==> i64::MIN <= count * repeats <= i64::MAX
}

/// Tells whether the operation counts of all batches fit in 64 bits.
pub fn check_counts(repeats: i64, count: i64) -> (fit: bool)
    ensures
        fit == counts_fit(repeats, count),
{
    count <= 0 || count.checked_mul(repeats).is_some()
}

proof fn lemma_iter_fits(repeats: i64, count: i64, k: int)
    requires
        counts_fit(repeats, count),
        0 <= k < count,
    ensures
        i64::MIN <= (k + 1) * repeats <= i64::MAX,
{
    let c = count as int;
    let r = repeats as int;
    assert(r >= 0 ==> 0 <= (k + 1) * r <= c * r) by (nonlinear_arith)
        requires
            0 <= k < c,
    ;
    assert(r < 0 ==> c * r <= (k + 1) * r <= 0) by (nonlinear_arith)
        requires
            0 <= k < c,
    ;
}

/// Adds the low byte of `v` to the checksum, wrapping at 256.
pub fn fold_byte(sum: u8, v: i64) -> (next: u8)
    ensures
        next == folded(sum, v),
{
    proof {
        lemma_low_byte(v);
    }
    sum.wrapping_add(#[verifier::truncate] (v as u8))
}

/// One insertion of the insert phase: `key` is bound to `key - 1`.
pub fn insert_key<M: Container>(m: &mut M, key: i64)
    requires
        i64::MIN < key,
    ensures
        final(m).entries() == old(m).entries().insert(key, value_for(key)),
{
    m.insert(key, key - 1);
}

/// One lookup of the lookup phase. Reports whether `key` was absent, and the
/// checksum with the value found folded in.
pub fn probe<M: Container>(m: &M, key: i64, sum: u8) -> (outcome: (bool, u8))
    ensures
        outcome.0 == !m.entries().contains_key(key),
        outcome.1 == match lookup(m.entries(), key) {
            Some(v) => folded(sum, v),
            None => sum,
        },
{
    match m.get(&key) {
        None => (true, sum),
        Some(v) => (false, fold_byte(sum, *v)),
    }
}

/// `drawn` explains a batch of insertions: it holds one key in range for
/// each round, and `after` is `before` with those keys inserted in turn.
pub open spec fn insert_batch_replay(
    before: Map<i64, i64>,
    after: Map<i64, i64>,
    max: i64,
    repeats: i64,
    drawn: Seq<i64>,
) -> bool {
    &&& drawn.len() == batch_len(repeats)
    &&& all_below(drawn, max)
    &&& after == after_inserts(before, drawn)
}

/// A batch of insertions: `repeats` times, draws a key and inserts it.
pub fn insert_batch<M: Container>(
    m: &mut M,
    keys: &UniformKeys,
    repeats: i64,
    rng: &mut rand::ThreadRng,
)
    ensures
        exists|drawn: Seq<i64>|
            insert_batch_replay(
                old(m).entries(),
                final(m).entries(),
                keys.bound(),
                repeats,
                drawn,
            ),
{
    let ghost mut drawn = Seq::<i64>::empty();
    let mut i: i64 = 0;
    proof {
        lemma_after_inserts_none(m.entries());
    }
    while i < repeats
        invariant
            0 <= i,
            i <= batch_len(repeats),
            drawn.len() == i,
            all_below(drawn, keys.bound()),
            m.entries() == after_inserts(old(m).entries(), drawn),
        decreases repeats - i,
    {
        let key: i64 = keys.sample(rng);
        insert_key(m, key);
        proof {
            lemma_after_inserts_push(old(m).entries(), drawn, key);
            drawn = drawn.push(key);
        }
        i += 1;
    }
    assert(insert_batch_replay(old(m).entries(), m.entries(), keys.bound(), repeats, drawn));
}

/// `drawn` explains a batch of lookups in `entries`: it holds one key in
/// range for each round, `outcome.0` counts those that were absent, and
/// `outcome.1` is `sum` with the values of the others folded in.
pub open spec fn lookup_batch_replay(
    entries: Map<i64, i64>,
    max: i64,
    repeats: i64,
    sum: u8,
    outcome: (i64, u8),
    drawn: Seq<i64>,
) -> bool {
    &&& drawn.len() == batch_len(repeats)
    &&& all_below(drawn, max)
    &&& outcome.0 == misses_among(entries, drawn)
    &&& outcome.1 == sum_over_hits(sum, entries, drawn)
}

/// A batch of lookups: `repeats` times, draws a key and looks it up. Hands
/// back the number of misses and the checksum.
pub fn lookup_batch<M: Container>(
    m: &M,
    keys: &UniformKeys,
    repeats: i64,
    sum: u8,
    rng: &mut rand::ThreadRng,
) -> (outcome: (i64, u8))
    ensures
        exists|drawn: Seq<i64>|
            lookup_batch_replay(m.entries(), keys.bound(), repeats, sum, outcome, drawn),
{
    let ghost mut drawn = Seq::<i64>::empty();
    let mut misses: i64 = 0;
    let mut running: u8 = sum;
    let mut i: i64 = 0;
    while i < repeats
        invariant
            0 <= i,
            i <= batch_len(repeats),
            drawn.len() == i,
            all_below(drawn, keys.bound()),
            0 <= misses <= i,
            misses == misses_among(m.entries(), drawn),
            running == sum_over_hits(sum, m.entries(), drawn),
        decreases repeats - i,
    {
        let key: i64 = keys.sample(rng);
        let (missed, next) = probe(m, key, running);
        if missed {
            misses += 1;
        }
        running = next;
        proof {
            let earlier = drawn;
            drawn = drawn.push(key);
            assert(drawn.drop_last() =~= earlier);
        }
        i += 1;
    }
    assert(lookup_batch_replay(m.entries(), keys.bound(), repeats, sum, (misses, running), drawn));
    (misses, running)
}

/// `drawn` explains a batch of bare draws: it holds one key in range for
/// each round, and `end_sum` is `sum` with those keys folded in.
pub open spec fn rng_batch_replay(
    max: i64,
    repeats: i64,
    sum: u8,
    end_sum: u8,
    drawn: Seq<i64>,
) -> bool {
    &&& drawn.len() == batch_len(repeats)
    &&& all_below(drawn, max)
    &&& end_sum == sum_over_keys(sum, drawn)
}

/// A batch of bare draws: `repeats` times, draws a key and folds it into the
/// checksum, with no container involved.
pub fn rng_batch(keys: &UniformKeys, repeats: i64, sum: u8, rng: &mut rand::ThreadRng) -> (end_sum:
    u8)
    ensures
        exists|drawn: Seq<i64>| rng_batch_replay(keys.bound(), repeats, sum, end_sum, drawn),
{
    let ghost mut drawn = Seq::<i64>::empty();
    let mut running: u8 = sum;
    let mut i: i64 = 0;
    while i < repeats
        invariant
            0 <= i,
            i <= batch_len(repeats),
            drawn.len() == i,
            all_below(drawn, keys.bound()),
            running == sum_over_keys(sum, drawn),
        decreases repeats - i,
    {
        let key: i64 = keys.sample(rng);
        running = fold_byte(running, key);
        proof {
            let earlier = drawn;
            drawn = drawn.push(key);
            assert(drawn.drop_last() =~= earlier);
        }
        i += 1;
    }
    assert(rng_batch_replay(keys.bound(), repeats, sum, running, drawn));
    running
}

/// `drawn` explains an insert phase: it holds the keys of all batches in
/// turn, each sample reports the size that the container had once its batch
/// was in, and `after` is `before` with all the keys inserted.
pub open spec fn insert_phase_replay(
    before: Map<i64, i64>,
    after: Map<i64, i64>,
    max: i64,
    repeats: i64,
    count: i64,
    samples: Seq<Sample>,
    drawn: Seq<i64>,
) -> bool {
    let width = batch_len(repeats) as int;
    &&& drawn.len() == batch_len(count) * width
    &&& all_below(drawn, max)
    &&& samples.len() == batch_len(count)
    &&& forall|k: int|
        0 <= k < samples.len() ==> (#[trigger] samples[k]).observed == after_inserts(
            before,
            drawn.take((k + 1) * width),
        ).len()
    &&& after == after_inserts(before, drawn)
}

/// The sizes that an insert phase reports. No batch leaves fewer keys than
/// the batch before it; and batch `k` leaves at least the keys that were
/// there at first, and at most one more for each insertion made so far.
pub proof fn law_reported_sizes(
    before: Map<i64, i64>,
    after: Map<i64, i64>,
    max: i64,
    repeats: i64,
    count: i64,
    samples: Seq<Sample>,
    drawn: Seq<i64>,
    j: int,
    k: int,
)
    requires
        before.dom().finite(),
        insert_phase_replay(before, after, max, repeats, count, samples, drawn),
        0 <= j <= k < samples.len(),
    ensures
        samples[j].observed <= samples[k].observed,
        before.len() <= samples[k].observed <= before.len() + (k + 1) * batch_len(repeats),
{
    let width = batch_len(repeats) as int;
    let upto_j = drawn.take((j + 1) * width);
    let upto_k = drawn.take((k + 1) * width);
    assert(0 <= (j + 1) * width <= (k + 1) * width <= drawn.len()) by (nonlinear_arith)
        requires
            0 <= j <= k < samples.len(),
            width >= 0,
            drawn.len() == samples.len() * width,
    ;
    lemma_after_inserts_keys(before, upto_j);
    lemma_after_inserts_keys(before, upto_k);
    vstd::seq_lib::seq_to_set_is_finite(upto_k);
    assert forall|key: i64| upto_j.contains(key) implies upto_k.contains(key) by {
        let i = choose|i: int| 0 <= i < upto_j.len() && upto_j[i] == key;
        assert(upto_k[i] == key);
    }
    let keys_j = before.dom().union(upto_j.to_set());
    let keys_k = before.dom().union(upto_k.to_set());
    assert(keys_j.subset_of(keys_k));
    vstd::set_lib::lemma_len_subset(keys_j, keys_k);
    vstd::set_lib::lemma_len_union(before.dom(), upto_k.to_set());
    vstd::set_lib::lemma_len_union_ind(before.dom(), upto_k.to_set());
    upto_k.lemma_cardinality_of_set();
}

/// The insert phase: `count` timed batches of `repeats` insertions each.
/// Sample `k` carries the operation count `(k + 1) * repeats` and the
/// container's size after batch `k`.
pub fn insert_phase<M: Container>(
    m: &mut M,
    keys: &UniformKeys,
    repeats: i64,
    count: i64,
    rng: &mut rand::ThreadRng,
) -> (samples: Vec<Sample>)
    requires
        counts_fit(repeats, count),
    ensures
        samples@.len() == batch_len(count),
        forall|k: int|
            0 <= k < samples@.len() ==> (#[trigger] samples@[k]).iter == (k + 1) * repeats,
        exists|drawn: Seq<i64>|
            insert_phase_replay(
                old(m).entries(),
                final(m).entries(),
                keys.bound(),
                repeats,
                count,
                samples@,
                drawn,
            ),
{
    let mut samples: Vec<Sample> = Vec::new();
    let ghost mut drawn = Seq::<i64>::empty();
    let ghost width = batch_len(repeats) as int;
    let mut k: i64 = 0;
    proof {
        lemma_after_inserts_none(m.entries());
    }
    while k < count
        invariant
            counts_fit(repeats, count),
            width == batch_len(repeats),
            0 <= k <= batch_len(count),
            samples@.len() == k,
            drawn.len() == k * width,
            all_below(drawn, keys.bound()),
            m.entries() == after_inserts(old(m).entries(), drawn),
            forall|j: int|
                0 <= j < k ==> {
                    &&& (#[trigger] samples@[j]).iter == (j + 1) * repeats
                    &&& samples@[j].observed == after_inserts(
                        old(m).entries(),
                        drawn.take((j + 1) * width),
                    ).len()
                },
        decreases count - k,
    {
        let ghost before = m.entries();
        let start = now();
        insert_batch(m, keys, repeats, rng);
        let end = now();
        let size = m.len();
        proof {
            let batch = choose|batch: Seq<i64>|
                insert_batch_replay(before, m.entries(), keys.bound(), repeats, batch);
            let earlier = drawn;
            drawn = earlier + batch;
            lemma_after_inserts_concat(old(m).entries(), earlier, batch);
            lemma_iter_fits(repeats, count, k as int);
            assert(drawn.len() == (k + 1) * width) by (nonlinear_arith)
                requires
                    drawn.len() == k * width + width,
            ;
            assert(drawn.take((k + 1) * width) =~= drawn);
            assert forall|j: int| 0 <= j < k implies (#[trigger] samples@[j]).observed
                == after_inserts(old(m).entries(), drawn.take((j + 1) * width)).len() by {
                assert((j + 1) * width <= k * width) by (nonlinear_arith)
                    requires
                        0 <= j < k,
                        width >= 0,
                ;
                assert(drawn.take((j + 1) * width) =~= earlier.take((j + 1) * width));
            }
        }
        samples.push(
            Sample {
                iter: (k + 1) * repeats,
                observed: size as u64,
                elapsed_ns: elapsed(start, end),
            },
        );
        k += 1;
    }
    assert(insert_phase_replay(
        old(m).entries(),
        m.entries(),
        keys.bound(),
        repeats,
        count,
        samples@,
        drawn,
    ));
    samples
}

/// `drawn` explains a lookup phase in `entries`: it holds the keys of all
/// batches in turn, each sample reports how many keys of its own batch were
/// absent, and `end_sum` is `sum` with the values of all hits folded in.
pub open spec fn lookup_phase_replay(
    entries: Map<i64, i64>,
    max: i64,
    repeats: i64,
    count: i64,
    sum: u8,
    samples: Seq<Sample>,
    end_sum: u8,
    drawn: Seq<i64>,
) -> bool {
    let width = batch_len(repeats) as int;
    &&& drawn.len() == batch_len(count) * width
    &&& all_below(drawn, max)
    &&& samples.len() == batch_len(count)
    &&& forall|k: int|
        0 <= k < samples.len() ==> (#[trigger] samples[k]).observed == misses_among(
            entries,
            drawn.subrange(k * width, (k + 1) * width),
        )
    &&& end_sum == sum_over_hits(sum, entries, drawn)
}

/// The lookup phase: `count` timed batches of `repeats` lookups each.
/// Sample `k` carries the operation count `(k + 1) * repeats` and the misses
/// of batch `k`. Hands back the samples and the checksum.
pub fn lookup_phase<M: Container>(
    m: &M,
    keys: &UniformKeys,
    repeats: i64,
    count: i64,
    sum: u8,
    rng: &mut rand::ThreadRng,
) -> (outcome: (Vec<Sample>, u8))
    requires
        counts_fit(repeats, count),
    ensures
        outcome.0@.len() == batch_len(count),
        forall|k: int|
            0 <= k < outcome.0@.len() ==> {
                &&& (#[trigger] outcome.0@[k]).iter == (k + 1) * repeats
                &&& outcome.0@[k].observed <= batch_len(repeats)
            },
        exists|drawn: Seq<i64>|
            lookup_phase_replay(
                m.entries(),
                keys.bound(),
                repeats,
                count,
                sum,
                outcome.0@,
                outcome.1,
                drawn,
            ),
{
    let mut samples: Vec<Sample> = Vec::new();
    let mut running: u8 = sum;
    let ghost mut drawn = Seq::<i64>::empty();
    let ghost width = batch_len(repeats) as int;
    let mut k: i64 = 0;
    while k < count
        invariant
            counts_fit(repeats, count),
            width == batch_len(repeats),
            0 <= k <= batch_len(count),
            samples@.len() == k,
            drawn.len() == k * width,
            all_below(drawn, keys.bound()),
            running == sum_over_hits(sum, m.entries(), drawn),
            forall|j: int|
                0 <= j < k ==> {
                    &&& (#[trigger] samples@[j]).iter == (j + 1) * repeats
                    &&& samples@[j].observed <= width
                    &&& samples@[j].observed == misses_among(
                        m.entries(),
                        drawn.subrange(j * width, (j + 1) * width),
                    )
                },
        decreases count - k,
    {
        let start = now();
        let (misses, next) = lookup_batch(m, keys, repeats, running, rng);
        let end = now();
        proof {
            let batch = choose|batch: Seq<i64>|
                lookup_batch_replay(
                    m.entries(),
                    keys.bound(),
                    repeats,
                    running,
                    (misses, next),
                    batch,
                );
            let earlier = drawn;
            drawn = earlier + batch;
            lemma_sum_over_hits_concat(sum, m.entries(), earlier, batch);
            lemma_misses_at_most(m.entries(), batch);
            lemma_iter_fits(repeats, count, k as int);
            assert(drawn.len() == (k + 1) * width) by (nonlinear_arith)
                requires
                    drawn.len() == k * width + width,
            ;
            assert(drawn.subrange(k * width, (k + 1) * width) =~= batch);
            assert forall|j: int| 0 <= j < k implies (#[trigger] samples@[j]).observed
                == misses_among(m.entries(), drawn.subrange(j * width, (j + 1) * width)) by {
                assert(0 <= j * width <= (j + 1) * width <= k * width) by (nonlinear_arith)
                    requires
                        0 <= j < k,
                        width >= 0,
                ;
                assert(drawn.subrange(j * width, (j + 1) * width) =~= earlier.subrange(
                    j * width,
                    (j + 1) * width,
                ));
            }
        }
        samples.push(
            Sample {
                iter: (k + 1) * repeats,
                observed: misses as u64,
                elapsed_ns: elapsed(start, end),
            },
        );
        running = next;
        k += 1;
    }
    let outcome = (samples, running);
    assert(lookup_phase_replay(
        m.entries(),
        keys.bound(),
        repeats,
        count,
        sum,
        outcome.0@,
        outcome.1,
        drawn,
    ));
    outcome
}

/// `drawn` explains a phase of bare draws: it holds the keys of all batches
/// in turn, and `end_sum` is `sum` with all of them folded in.
pub open spec fn rng_phase_replay(
    max: i64,
    repeats: i64,
    count: i64,
    sum: u8,
    end_sum: u8,
    drawn: Seq<i64>,
) -> bool {
    &&& drawn.len() == batch_len(count) * batch_len(repeats)
    &&& all_below(drawn, max)
    &&& end_sum == sum_over_keys(sum, drawn)
}

/// The phase of bare draws: `count` timed batches of `repeats` draws each,
/// which measure what the generator alone costs. Hands back the nanoseconds
/// of each batch and the checksum.
pub fn rng_phase(
    keys: &UniformKeys,
    repeats: i64,
    count: i64,
    sum: u8,
    rng: &mut rand::ThreadRng,
) -> (outcome: (Vec<u64>, u8))
    ensures
        outcome.0@.len() == batch_len(count),
        exists|drawn: Seq<i64>|
            rng_phase_replay(keys.bound(), repeats, count, sum, outcome.1, drawn),
{
    let mut times: Vec<u64> = Vec::new();
    let mut running: u8 = sum;
    let ghost mut drawn = Seq::<i64>::empty();
    let ghost width = batch_len(repeats) as int;
    let mut k: i64 = 0;
    while k < count
        invariant
            width == batch_len(repeats),
            0 <= k <= batch_len(count),
            times@.len() == k,
            drawn.len() == k * width,
            all_below(drawn, keys.bound()),
            running == sum_over_keys(sum, drawn),
        decreases count - k,
    {
        let start = now();
        let next = rng_batch(keys, repeats, running, rng);
        let end = now();
        proof {
            let batch = choose|batch: Seq<i64>|
                rng_batch_replay(keys.bound(), repeats, running, next, batch);
            let earlier = drawn;
            drawn = earlier + batch;
            lemma_sum_over_keys_concat(sum, earlier, batch);
            assert(drawn.len() == (k + 1) * width) by (nonlinear_arith)
                requires
                    drawn.len() == k * width + width,
            ;
        }
        times.push(elapsed(start, end));
        running = next;
        k += 1;
    }
    let outcome = (times, running);
    assert(rng_phase_replay(keys.bound(), repeats, count, sum, outcome.1, drawn));
    outcome
}

/// The parameters that a run accepts: a key range that is not empty, and
/// operation counts that fit in 64 bits.
pub open spec fn valid_workload(max: i64, repeats: i64, count: i64) -> bool {
    0 < max && counts_fit(repeats, count)
}

/// Tells whether a run accepts these parameters.
pub fn check_workload(max: i64, repeats: i64, count: i64) -> (valid: bool)
    ensures
        valid == valid_workload(max, repeats, count),
{
    0 < max && check_counts(repeats, count)
}

/// What holds of the measurements whatever keys were drawn: each phase has
/// one record for each batch, and record `k` of the insert and lookup phases
/// carries the operation count `(k + 1) * repeats`.
pub open spec fn well_shaped(timings: Timings, repeats: i64, count: i64) -> bool {
    &&& timings.insert@.len() == batch_len(count)
    &&& timings.lookup@.len() == batch_len(count)
    &&& timings.rng@.len() == batch_len(count)
    &&& forall|k: int|
        0 <= k < batch_len(count) ==> (#[trigger] timings.insert@[k]).iter == (k + 1) * repeats
    &&& forall|k: int|
        0 <= k < batch_len(count) ==> {
            &&& (#[trigger] timings.lookup@[k]).iter == (k + 1) * repeats
            &&& timings.lookup@[k].observed <= batch_len(repeats)
        }
}

/// The three key sequences explain a whole run: `inserted` the insert phase
/// from `before` to `after`, `looked_up` the lookup phase in `after` with a
/// checksum that starts at zero, and `bare` the phase of bare draws, which
/// takes the checksum on to the one reported.
pub open spec fn bench_replay(
    before: Map<i64, i64>,
    after: Map<i64, i64>,
    max: i64,
    repeats: i64,
    count: i64,
    timings: Timings,
    inserted: Seq<i64>,
    looked_up: Seq<i64>,
    bare: Seq<i64>,
) -> bool {
    let mid_sum = sum_over_hits(0, after, looked_up);
    &&& insert_phase_replay(before, after, max, repeats, count, timings.insert@, inserted)
    &&& lookup_phase_replay(
        after,
        max,
        repeats,
        count,
        0,
        timings.lookup@,
        mid_sum,
        looked_up,
    )
    &&& rng_phase_replay(max, repeats, count, mid_sum, timings.checksum, bare)
}

/// Measures one container: the insert phase, then the lookup phase on what
/// the insert phase left, then the phase of bare draws. All keys are drawn
/// uniformly from `[0, max)`; `rng` is the one source of all three phases.
pub fn bench<M: Container>(
    m: &mut M,
    max: i64,
    repeats: i64,
    count: i64,
    rng: &mut rand::ThreadRng,
) -> (timings: Timings)
    requires
        valid_workload(max, repeats, count),
    ensures
        well_shaped(timings, repeats, count),
        exists|inserted: Seq<i64>, looked_up: Seq<i64>, bare: Seq<i64>|
            bench_replay(
                old(m).entries(),
                final(m).entries(),
                max,
                repeats,
                count,
                timings,
                inserted,
                looked_up,
                bare,
            ),
{
    let keys = UniformKeys::new(max);
    let insert = insert_phase(m, &keys, repeats, count, rng);
    let (lookup, mid_sum) = lookup_phase(m, &keys, repeats, count, 0, rng);
    let (times, checksum) = rng_phase(&keys, repeats, count, mid_sum, rng);
    let timings = Timings { insert, lookup, rng: times, checksum };
    proof {
        let inserted = choose|drawn: Seq<i64>|
            insert_phase_replay(
                old(m).entries(),
                m.entries(),
                max,
                repeats,
                count,
                timings.insert@,
                drawn,
            );
        let looked_up = choose|drawn: Seq<i64>|
            lookup_phase_replay(
                m.entries(),
                max,
                repeats,
                count,
                0,
                timings.lookup@,
                mid_sum,
                drawn,
            );
        let bare = choose|drawn: Seq<i64>|
            rng_phase_replay(max, repeats, count, mid_sum, checksum, drawn);
        assert(bench_replay(
            old(m).entries(),
            m.entries(),
            max,
            repeats,
            count,
            timings,
            inserted,
            looked_up,
            bare,
        ));
    }
    timings
}

} // verus!
