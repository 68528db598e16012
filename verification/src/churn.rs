//! The churn runner: the cost of inserting a key and removing it at once,
//! measured over workloads that double in size.

use crate::clock::elapsed;
use crate::clock::now;
use crate::container::Container;
use crate::keys::draw_reduced;
use crate::keys::CHURN_KEY_BOUND;
use crate::workload::after_removals;
use crate::workload::lemma_after_removals_concat;
use crate::workload::lemma_after_removals_none;
use crate::workload::lemma_after_removals_push;
use vstd::arithmetic::power2::lemma2_to64;
use vstd::arithmetic::power2::lemma2_to64_rest;
use vstd::arithmetic::power2::lemma_pow2_strictly_increases;
use vstd::arithmetic::power2::lemma_pow2_unfold;
use vstd::arithmetic::power2::pow2;
use vstd::prelude::*;

verus! {

/// The number of workload sizes that a full sweep measures: 1, 2, 4 and so
/// on, up to two to the power of one less than this.
pub const CHURN_EXPONENTS: u32 = 25;

/// The value that the churn runner stores with every key.
pub const CHURN_VALUE: i64 = 1;

/// One measurement of the churn runner. The mean cost of one insert/remove
/// pair is `elapsed_ns` divided by `n`.
#[derive(Clone, Copy, Debug, PartialEq, Eq)]
pub struct ChurnSample {
    /// The number of insert/remove pairs that were timed.
    pub n: u64,
    /// The nanoseconds that all of them took together.
    pub elapsed_ns: u64,
}

/// Every key is one that the secondary generator can give.
pub open spec fn all_reduced(keys: Seq<i64>) -> bool {
    forall|i: int| 0 <= i < keys.len() ==> -CHURN_KEY_BOUND < #[trigger] keys[i] < CHURN_KEY_BOUND
}

/// One round of churn: inserts `key` and removes it at once. Whatever `key`
/// was bound to before is gone.
pub fn churn_key<M: Container>(m: &mut M, key: i64)
    ensures
        final(m).entries() == old(m).entries().remove(key),
{
    m.insert(key, CHURN_VALUE);
    m.remove(&key);
    assert(m.entries() =~= old(m).entries().remove(key));
}

/// `drawn` explains `rounds` rounds of churn: it holds one key of the
/// secondary generator for each round, and `after` is `before` without
/// those keys.
pub open spec fn churn_replay(
    before: Map<i64, i64>,
    after: Map<i64, i64>,
    rounds: nat,
    drawn: Seq<i64>,
) -> bool {
    &&& drawn.len() == rounds
    &&& all_reduced(drawn)
    &&& after == after_removals(before, drawn)
}

/// A batch of churn: `n` times, draws a key with the secondary generator,
/// inserts it and removes it.
pub fn churn_batch<M: Container>(m: &mut M, n: u64, rng: &mut rand::ThreadRng)
    ensures
        exists|drawn: Seq<i64>|
            churn_replay(old(m).entries(), final(m).entries(), n as nat, drawn),
{
    let ghost mut drawn = Seq::<i64>::empty();
    let mut i: u64 = 0;
    proof {
        lemma_after_removals_none(m.entries());
    }
    while i < n
        invariant
            i <= n,
            drawn.len() == i,
            all_reduced(drawn),
            m.entries() == after_removals(old(m).entries(), drawn),
        decreases n - i,
    {
        let key: i64 = draw_reduced(rng);
        churn_key(m, key);
        proof {
            lemma_after_removals_push(old(m).entries(), drawn, key);
            drawn = drawn.push(key);
        }
        i += 1;
    }
    assert(churn_replay(old(m).entries(), m.entries(), n as nat, drawn));
}

/// The rounds of churn that a sweep over `exponents` workload sizes makes
/// in all: 1 + 2 + 4 + ..., one term for each size.
pub open spec fn sweep_rounds(exponents: u32) -> nat {
    (pow2(exponents as nat) - 1) as nat
}

/// A sweep over `exponents` workload sizes. Sample `i` times a batch of
/// two to the power of `i` rounds of churn.
pub fn churn_sweep<M: Container>(m: &mut M, exponents: u32, rng: &mut rand::ThreadRng) -> (samples:
    Vec<ChurnSample>)
    requires
        exponents <= 63,
    ensures
        samples@.len() == exponents,
        forall|i: int| 0 <= i < samples@.len() ==> (#[trigger] samples@[i]).n == pow2(i as nat),
        exists|drawn: Seq<i64>|
            churn_replay(
                old(m).entries(),
                final(m).entries(),
                sweep_rounds(exponents),
                drawn,
            ),
{
    let mut samples: Vec<ChurnSample> = Vec::new();
    let ghost mut drawn = Seq::<i64>::empty();
    let mut ni: u32 = 0;
    let mut n: u64 = 1;
    proof {
        lemma_after_removals_none(m.entries());
        lemma2_to64();
    }
    while ni < exponents
        invariant
            exponents <= 63,
            ni <= exponents,
            n == pow2(ni as nat),
            samples@.len() == ni,
            forall|i: int| 0 <= i < ni ==> (#[trigger] samples@[i]).n == pow2(i as nat),
            drawn.len() == pow2(ni as nat) - 1,
            all_reduced(drawn),
            m.entries() == after_removals(old(m).entries(), drawn),
        decreases exponents - ni,
    {
        let ghost before = m.entries();
        let start = now();
        churn_batch(m, n, rng);
        let end = now();
        proof {
            let batch = choose|batch: Seq<i64>|
                churn_replay(before, m.entries(), n as nat, batch);
            lemma_after_removals_concat(old(m).entries(), drawn, batch);
            drawn = drawn + batch;
            lemma_pow2_unfold((ni + 1) as nat);
            if ni + 1 < 63 {
                lemma_pow2_strictly_increases((ni + 1) as nat, 63);
            }
            lemma2_to64_rest();
        }
        samples.push(ChurnSample { n, elapsed_ns: elapsed(start, end) });
        n = n * 2;
        ni += 1;
    }
    assert(churn_replay(old(m).entries(), m.entries(), sweep_rounds(exponents), drawn));
    samples
}

} // verus!
