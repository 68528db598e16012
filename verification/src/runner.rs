//! Whole runs: both containers, one after the other, in either mode.

use crate::churn::churn_sweep;
use crate::churn::ChurnSample;
use crate::churn::CHURN_EXPONENTS;
use crate::throughput::bench;
use crate::throughput::bench_replay;
use crate::throughput::check_workload;
use crate::throughput::valid_workload;
use crate::throughput::well_shaped;
use crate::throughput::Timings;
use std::collections::BTreeMap;
use std::collections::HashMap;
use vstd::arithmetic::power2::pow2;
use vstd::prelude::*;

verus! {

/// The throughput measurements of both containers.
#[derive(Debug, PartialEq, Eq)]
pub struct Report {
    /// The measurements of the ordered map.
    pub ordered: Timings,
    /// The measurements of the hash map.
    pub hashed: Timings,
}

/// The churn measurements of both containers.
#[derive(Debug, PartialEq, Eq)]
pub struct ChurnReport {
    /// The sweep over the ordered map.
    pub ordered: Vec<ChurnSample>,
    /// The sweep over the hash map.
    pub hashed: Vec<ChurnSample>,
}

/// What a run measures.
#[derive(Clone, Copy, Debug, PartialEq, Eq)]
pub enum Mode {
    /// Batches of insertions and lookups with keys below `max`: `count`
    /// batches of `repeats` operations each.
    Throughput { max: i64, repeats: i64, count: i64 },
    /// Insert/remove pairs over workloads that double in size.
    Churn,
}

/// What a run measured.
#[derive(Debug, PartialEq, Eq)]
pub enum Outcome {
    /// The measurements of a throughput run.
    Throughput(Report),
    /// The measurements of a churn run.
    Churn(ChurnReport),
}

/// The measurements are those of a container that was empty at first:
/// some keys in range, drawn for the three phases, explain them.
pub open spec fn measured_from_empty(max: i64, repeats: i64, count: i64, timings: Timings) -> bool {
    &&& well_shaped(timings, repeats, count)
    &&& exists|after: Map<i64, i64>, inserted: Seq<i64>, looked_up: Seq<i64>, bare: Seq<i64>|
        bench_replay(
            Map::<i64, i64>::empty(),
            after,
            max,
            repeats,
            count,
            timings,
            inserted,
            looked_up,
            bare,
        )
}

/// Each sweep has one sample for each workload size, and sample `i` is
/// that of two to the power of `i` rounds.
pub open spec fn swept(samples: Seq<ChurnSample>, exponents: u32) -> bool {
    &&& samples.len() == exponents
    &&& forall|i: int| 0 <= i < samples.len() ==> (#[trigger] samples[i]).n == pow2(i as nat)
}

/// A throughput run: measures an ordered map and then a hash map, each
/// empty at first, with keys drawn from the one source `rng`. Hands back
/// nothing where the parameters are not valid.
pub fn run_throughput(max: i64, repeats: i64, count: i64, rng: &mut rand::ThreadRng) -> (report:
    Option<Report>)
    ensures
        report.is_some() == valid_workload(max, repeats, count),
        match report {
            Some(r) => {
                &&& measured_from_empty(max, repeats, count, r.ordered)
                &&& measured_from_empty(max, repeats, count, r.hashed)
            },
            None => true,
        },
{
    if !check_workload(max, repeats, count) {
        return None;
    }
    let mut tree: BTreeMap<i64, i64> = BTreeMap::new();
    let ordered = bench(&mut tree, max, repeats, count, rng);
    let mut table: HashMap<i64, i64> = HashMap::new();
    let hashed = bench(&mut table, max, repeats, count, rng);
    Some(Report { ordered, hashed })
}

/// Churn sweeps over `exponents` workload sizes: one over an ordered map
/// with keys from `ordered_rng`, then one over a hash map with keys from
/// `hashed_rng`. Both containers are empty at first.
pub fn churn_both(
    exponents: u32,
    ordered_rng: &mut rand::ThreadRng,
    hashed_rng: &mut rand::ThreadRng,
) -> (report: ChurnReport)
    requires
        exponents <= 63,
    ensures
        swept(report.ordered@, exponents),
        swept(report.hashed@, exponents),
{
    let mut tree: BTreeMap<i64, i64> = BTreeMap::new();
    let ordered = churn_sweep(&mut tree, exponents, ordered_rng);
    let mut table: HashMap<i64, i64> = HashMap::new();
    let hashed = churn_sweep(&mut table, exponents, hashed_rng);
    ChurnReport { ordered, hashed }
}

/// A churn run: sweeps over the fixed number of workload sizes.
pub fn run_churn(ordered_rng: &mut rand::ThreadRng, hashed_rng: &mut rand::ThreadRng) -> (report:
    ChurnReport)
    ensures
        swept(report.ordered@, CHURN_EXPONENTS),
        swept(report.hashed@, CHURN_EXPONENTS),
{
    churn_both(CHURN_EXPONENTS, ordered_rng, hashed_rng)
}

/// A run in the given mode. A throughput run draws all its keys from
/// `first`; a churn run draws those of the ordered map from `first` and
/// those of the hash map from `second`. Hands back nothing where the
/// parameters of a throughput run are not valid.
pub fn run(mode: Mode, first: &mut rand::ThreadRng, second: &mut rand::ThreadRng) -> (outcome:
    Option<Outcome>)
    ensures
        match mode {
            Mode::Throughput { max, repeats, count } => match outcome {
                Some(Outcome::Throughput(r)) => {
                    &&& valid_workload(max, repeats, count)
                    &&& measured_from_empty(max, repeats, count, r.ordered)
                    &&& measured_from_empty(max, repeats, count, r.hashed)
                },
                Some(Outcome::Churn(_)) => false,
                None => !valid_workload(max, repeats, count),
            },
            Mode::Churn => match outcome {
                Some(Outcome::Churn(r)) => {
                    &&& swept(r.ordered@, CHURN_EXPONENTS)
                    &&& swept(r.hashed@, CHURN_EXPONENTS)
                },
                _ => false,
            },
        },
{
    match mode {
        Mode::Throughput { max, repeats, count } => {
            match run_throughput(max, repeats, count, first) {
                Some(report) => Some(Outcome::Throughput(report)),
                None => None,
            }
        },
        Mode::Churn => Some(Outcome::Churn(run_churn(first, second))),
    }
}

} // verus!
