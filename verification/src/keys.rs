//! The workload generator: random keys for the runners.
//!
//! Two generators exist. The primary one draws uniformly from `[0, max)` with
//! a rejection sampler, so no key is favoured. The secondary one draws any
//! 64-bit value and takes its remainder by a fixed bound, which favours some
//! keys slightly. The churn runner accepts that bias.

use vstd::prelude::*;

verus! {

/// `rand::ThreadRng`, the handle to the thread's random source. Its state is
/// hidden: a value of it is only carried to the calls that draw from it.
#[verifier::external_type_specification]
#[verifier::external_body]
pub struct ExThreadRng(rand::ThreadRng);

/// `rand::distributions::Range`, a sampler of values between two bounds. Its
/// fields are hidden; `range_bounds` names the bounds it was made with.
#[verifier::external_type_specification]
#[verifier::external_body]
#[verifier::reject_recursive_types(X)]
pub struct ExRange<X>(rand::distributions::Range<X>);

/// The pair `(low, high)` that a range sampler was made with.
pub uninterp spec fn range_bounds(range: rand::distributions::Range<i64>) -> (i64, i64);

/// `rand::distributions::Range::new`: a sampler over `[low, high)`. The call
/// panics unless `low < high`, which `requires` leaves out; the sampler
/// keeps the two bounds it was given.
#[verifier::external_body]
fn range_new(low: i64, high: i64) -> (range: rand::distributions::Range<i64>)
    requires
        low < high,
    ensures
        range_bounds(range) == (low, high),
{
    rand::distributions::Range::new(low, high)
}

/// `rand::distributions::IndependentSample::ind_sample` on an integer range:
/// the value drawn lies in `[low, high)`. Which value it is depends on the
/// generator's state, so nothing else is claimed. The sampler rejects and
/// redraws until a draw falls in its accept zone, which at least half of
/// all 64-bit values do. The thread's generator reseeds itself from the
/// operating system now and then, and panics if no entropy can be had; no
/// argument of the call decides that.
#[verifier::external_body]
fn range_sample(range: &rand::distributions::Range<i64>, rng: &mut rand::ThreadRng) -> (key: i64)
    ensures
        range_bounds(*range).0 <= key < range_bounds(*range).1,
{
    rand::distributions::IndependentSample::ind_sample(range, rng)
}

/// `rand::Rng::gen` at `i64`: the next 64 bits of the generator, read as a
/// signed number. Any value may come back, so nothing is claimed of it. The
/// generator reseeds as it does under `range_sample`.
#[verifier::external_body]
fn draw_i64(rng: &mut rand::ThreadRng) -> (raw: i64) {
    rand::Rng::gen::<i64>(rng)
}

/// The primary generator: uniform keys below an exclusive upper bound.
pub struct UniformKeys {
    max: i64,
    range: rand::distributions::Range<i64>,
}

impl UniformKeys {
    /// The bound is positive, and the sampler was made for `[0, max)`.
    #[verifier::type_invariant]
    spec fn sampler_matches_bound(self) -> bool {
        &&& 0 < self.max
        &&& range_bounds(self.range) == (0i64, self.max)
    }

    /// The exclusive upper bound of the keys.
    pub closed spec fn bound(self) -> i64 {
        self.max
    }

    /// A generator of keys in `[0, max)`.
    pub fn new(max: i64) -> (keys: Self)
        requires
            0 < max,
        ensures
            keys.bound() == max,
    {
        UniformKeys { max, range: range_new(0, max) }
    }

    /// The exclusive upper bound of the keys, which is positive.
    pub fn max(&self) -> (max: i64)
        ensures
            max == self.bound(),
            0 < max,
    {
        proof {
            use_type_invariant(self);
        }
        self.max
    }

    /// Draws the next key: some `key` with `0 <= key < max`.
    pub fn sample(&self, rng: &mut rand::ThreadRng) -> (key: i64)
        ensures
            0 <= key < self.bound(),
    {
        proof {
            use_type_invariant(self);
        }
        range_sample(&self.range, rng)
    }
}

/// The bound by which the secondary generator reduces its draws.
pub const CHURN_KEY_BOUND: i64 = 2147483647;

/// The remainder of `raw` by `CHURN_KEY_BOUND`, with the sign of `raw`.
pub open spec fn reduced(raw: int) -> int {
    if raw >= 0 {
        raw % (CHURN_KEY_BOUND as int)
    } else {
        -((-raw) % (CHURN_KEY_BOUND as int))
    }
}

/// Reduces a full-range draw to a key of the secondary generator.
pub fn reduce(raw: i64) -> (key: i64)
    ensures
        key == reduced(raw as int),
        -CHURN_KEY_BOUND < key < CHURN_KEY_BOUND,
{
    raw % CHURN_KEY_BOUND
}

/// Draws the next key of the secondary generator: the reduction of some
/// 64-bit value.
pub fn draw_reduced(rng: &mut rand::ThreadRng) -> (key: i64)
    ensures
        exists|raw: i64| key == reduced(raw as int),
        -CHURN_KEY_BOUND < key < CHURN_KEY_BOUND,
{
    let raw: i64 = draw_i64(rng);
    reduce(raw)
}

} // verus!
