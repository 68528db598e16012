//! What holds of every container, whatever sequence of operations it sees.
//!
//! The laws are stated over the entries that the operations of `Container`
//! are specified by, so they hold of the ordered map and of the hash map
//! alike.

use crate::container::lookup;
use vstd::prelude::*;

verus! {

/// An operation that changes a container.
pub enum Step {
    /// Binds `key` to `value`.
    Insert { key: i64, value: i64 },
    /// Unbinds `key`.
    Remove { key: i64 },
}

impl Step {
    /// The key that the operation is about.
    pub open spec fn key(self) -> i64 {
        match self {
            Step::Insert { key, .. } => key,
            Step::Remove { key } => key,
        }
    }

    /// The entries after the operation.
    pub open spec fn apply(self, entries: Map<i64, i64>) -> Map<i64, i64> {
        match self {
            Step::Insert { key, value } => entries.insert(key, value),
            Step::Remove { key } => entries.remove(key),
        }
    }
}

/// The entries after each of `steps` was applied in turn.
pub open spec fn run(entries: Map<i64, i64>, steps: Seq<Step>) -> Map<i64, i64>
    decreases steps.len(),
{
    if steps.len() == 0 {
        entries
    } else {
        steps.last().apply(run(entries, steps.drop_last()))
    }
}

/// None of `steps` is about `key`.
pub open spec fn leaves_alone(steps: Seq<Step>, key: i64) -> bool {
    forall|i: int| 0 <= i < steps.len() ==> (#[trigger] steps[i]).key() != key
}

impl Step {
    /// The operation binds `key`.
    pub open spec fn inserts(self, key: i64) -> bool {
        self is Insert && self.key() == key
    }
}

/// None of `steps` inserts `key`.
pub open spec fn never_inserts(steps: Seq<Step>, key: i64) -> bool {
    forall|i: int| 0 <= i < steps.len() ==> !(#[trigger] steps[i]).inserts(key)
}

/// Every one of `steps` is an insertion.
pub open spec fn only_inserts(steps: Seq<Step>) -> bool {
    forall|i: int| 0 <= i < steps.len() ==> #[trigger] steps[i] is Insert
}

/// Operations on other keys do not change what a lookup of `key` reports.
pub proof fn law_other_keys_do_not_interfere(entries: Map<i64, i64>, steps: Seq<Step>, key: i64)
    requires
        leaves_alone(steps, key),
    ensures
        lookup(run(entries, steps), key) == lookup(entries, key),
    decreases steps.len(),
{
    if steps.len() > 0 {
        let earlier = steps.drop_last();
        assert forall|i: int| 0 <= i < earlier.len() implies (#[trigger] earlier[i]).key()
            != key by {
            assert(earlier[i] == steps[i]);
        }
        law_other_keys_do_not_interfere(entries, earlier, key);
        assert(steps.last() == steps[steps.len() - 1]);
    }
}

/// Insert, then lookup: once `key` was inserted with `value`, a lookup of
/// `key` reports `value`, for as long as no later operation overwrites or
/// removes `key`.
pub proof fn law_insert_then_lookup(
    entries: Map<i64, i64>,
    key: i64,
    value: i64,
    later: Seq<Step>,
)
    requires
        leaves_alone(later, key),
    ensures
        lookup(run(entries.insert(key, value), later), key) == Some(value),
{
    law_other_keys_do_not_interfere(entries.insert(key, value), later, key);
}

/// Insert hands back the previous value. An insertion reports what a lookup
/// of its key would have reported just before it. So a second insertion of
/// `key`, with nothing done to `key` in between, hands back the value of the
/// first; and the insertion of a key that is absent hands back absence.
pub proof fn law_insert_hands_back_previous(
    entries: Map<i64, i64>,
    key: i64,
    first: i64,
    between: Seq<Step>,
)
    requires
        leaves_alone(between, key),
    ensures
        lookup(run(entries.insert(key, first), between), key) == Some(first),
        !entries.contains_key(key) ==> lookup(entries, key) == None::<i64>,
{
    law_insert_then_lookup(entries, key, first, between);
}

/// Remove, then lookup: once `key` was removed, a lookup of `key` reports
/// absence, for as long as no later operation inserts `key`.
pub proof fn law_remove_then_lookup(entries: Map<i64, i64>, key: i64, later: Seq<Step>)
    requires
        never_inserts(later, key),
    ensures
        lookup(run(entries.remove(key), later), key) == None::<i64>,
    decreases later.len(),
{
    if later.len() > 0 {
        let earlier = later.drop_last();
        assert forall|i: int| 0 <= i < earlier.len() implies !(#[trigger] earlier[i]).inserts(
            key,
        ) by {
            assert(earlier[i] == later[i]);
        }
        law_remove_then_lookup(entries, key, earlier);
        assert(later.last() == later[later.len() - 1]);
    }
}

/// The size after one insertion: one more where the key is new, and the
/// same where it was there already.
pub proof fn law_insert_size(entries: Map<i64, i64>, key: i64, value: i64)
    requires
        entries.dom().finite(),
    ensures
        entries.insert(key, value).dom().finite(),
        !entries.contains_key(key) ==> entries.insert(key, value).len() == entries.len() + 1,
        entries.contains_key(key) ==> entries.insert(key, value).len() == entries.len(),
{
    if entries.contains_key(key) {
        assert(entries.insert(key, value).dom() =~= entries.dom());
    }
}

/// A run of operations on finitely many entries leaves finitely many.
pub proof fn law_run_stays_finite(entries: Map<i64, i64>, steps: Seq<Step>)
    requires
        entries.dom().finite(),
    ensures
        run(entries, steps).dom().finite(),
    decreases steps.len(),
{
    if steps.len() > 0 {
        law_run_stays_finite(entries, steps.drop_last());
    }
}

/// Size monotonicity: along a run of insertions the size never goes down,
/// and each insertion of a key that is new at that point adds exactly one.
pub proof fn law_inserts_grow(entries: Map<i64, i64>, steps: Seq<Step>, i: int)
    requires
        entries.dom().finite(),
        only_inserts(steps),
        0 <= i < steps.len(),
    ensures
        run(entries, steps.take(i)).len() <= run(entries, steps.take(i + 1)).len(),
        !run(entries, steps.take(i)).contains_key(steps[i].key()) ==> run(
            entries,
            steps.take(i + 1),
        ).len() == run(entries, steps.take(i)).len() + 1,
{
    let before = run(entries, steps.take(i));
    assert(steps.take(i + 1).drop_last() =~= steps.take(i));
    assert(steps.take(i + 1).last() == steps[i]);
    law_run_stays_finite(entries, steps.take(i));
    match steps[i] {
        Step::Insert { key, value } => {
            law_insert_size(before, key, value);
        },
        Step::Remove { .. } => {},
    }
}

/// Distinct new keys: a run of insertions whose keys differ from each other
/// and from the keys already there adds one entry for each.
pub proof fn law_distinct_inserts_count(entries: Map<i64, i64>, steps: Seq<Step>)
    requires
        entries.dom().finite(),
        only_inserts(steps),
        forall|i: int| 0 <= i < steps.len() ==> !entries.contains_key((#[trigger] steps[i]).key()),
        forall|i: int, j: int|
            0 <= i < j < steps.len() ==> (#[trigger] steps[i]).key() != (#[trigger] steps[j]).key(),
    ensures
        run(entries, steps).len() == entries.len() + steps.len(),
    decreases steps.len(),
{
    if steps.len() > 0 {
        let earlier = steps.drop_last();
        let last = steps.last();
        assert forall|i: int| 0 <= i < earlier.len() implies (#[trigger] earlier[i])
            == steps[i] by {}
        law_distinct_inserts_count(entries, earlier);
        law_run_stays_finite(entries, earlier);
        assert forall|i: int| 0 <= i < earlier.len() implies (#[trigger] earlier[i]).key()
            != last.key() by {
            assert(earlier[i] == steps[i]);
            assert(last == steps[steps.len() - 1]);
        }
        law_other_keys_do_not_interfere(entries, earlier, last.key());
        assert(last == steps[steps.len() - 1]);
        match last {
            Step::Insert { key, value } => {
                law_insert_size(run(entries, earlier), key, value);
            },
            Step::Remove { .. } => {},
        }
    }
}

/// Churn: inserting a key that is absent and removing it at once leaves the
/// entries, and so the size, as they were.
pub proof fn law_churn_restores(entries: Map<i64, i64>, key: i64, value: i64)
    requires
        !entries.contains_key(key),
    ensures
        entries.insert(key, value).remove(key) == entries,
        entries.insert(key, value).remove(key).len() == entries.len(),
{
    assert(entries.insert(key, value).remove(key) =~= entries);
}

} // verus!
