use map_bench::churn::ChurnSample;
use map_bench::runner::churn_both;
use map_bench::runner::run;
use map_bench::runner::run_throughput;
use map_bench::runner::Mode;
use map_bench::runner::Outcome;
use map_bench::throughput::Sample;
use map_bench::throughput::Timings;

fn check_shape(t: &Timings, repeats: i64, count: usize) {
    assert_eq!(t.insert.len(), count);
    assert_eq!(t.lookup.len(), count);
    assert_eq!(t.rng.len(), count);
    for k in 0..count {
        assert_eq!(t.insert[k].iter, (k as i64 + 1) * repeats);
        assert_eq!(t.lookup[k].iter, (k as i64 + 1) * repeats);
    }
}

#[test]
fn throughput_run_has_five_records_per_phase() {
    let mut rng = rand::thread_rng();
    let report = run_throughput(1000000, 1000, 5, &mut rng).unwrap();
    for t in [&report.ordered, &report.hashed] {
        assert_eq!(t.insert.len(), 5);
        assert_eq!(t.lookup.len(), 5);
        assert_eq!(t.rng.len(), 5);
        let counts: Vec<i64> = t.insert.iter().map(|s| s.iter).collect();
        assert_eq!(counts, vec![1000, 2000, 3000, 4000, 5000]);
        let counts: Vec<i64> = t.lookup.iter().map(|s| s.iter).collect();
        assert_eq!(counts, vec![1000, 2000, 3000, 4000, 5000]);
        let mut last = 0;
        for (k, s) in t.insert.iter().enumerate() {
            assert!(s.observed > last);
            assert!(s.observed <= (k as u64 + 1) * 1000);
            last = s.observed;
        }
        for s in t.lookup.iter() {
            assert!(s.observed <= 1000);
        }
    }
}

#[test]
fn throughput_run_of_both_containers_with_one_possible_key() {
    let mut rng = rand::thread_rng();
    let report = run_throughput(1, 4, 3, &mut rng).unwrap();
    for t in [&report.ordered, &report.hashed] {
        check_shape(t, 4, 3);
        for k in 0..3 {
            assert_eq!(t.insert[k].observed, 1);
            assert_eq!(t.lookup[k].observed, 0);
        }
        assert_eq!(t.checksum, 244);
    }
}

#[test]
fn throughput_run_refuses_an_empty_key_range() {
    let mut rng = rand::thread_rng();
    assert_eq!(run_throughput(0, 1000, 5, &mut rng), None);
    assert_eq!(run_throughput(-10, 1000, 5, &mut rng), None);
}

#[test]
fn throughput_run_refuses_counts_that_overflow() {
    let mut rng = rand::thread_rng();
    assert_eq!(run_throughput(10, i64::MAX, 2, &mut rng), None);
    assert_eq!(run_throughput(10, 1 << 40, 1 << 40, &mut rng), None);
}

#[test]
fn throughput_run_without_batches() {
    let mut rng = rand::thread_rng();
    let report = run_throughput(10, 1000, 0, &mut rng).unwrap();
    check_shape(&report.ordered, 1000, 0);
    check_shape(&report.hashed, 1000, 0);
    assert_eq!(report.ordered.checksum, 0);
    assert_eq!(report.hashed.checksum, 0);
}

#[test]
fn churn_of_both_containers() {
    let mut first = rand::thread_rng();
    let mut second = rand::thread_rng();
    let report = churn_both(10, &mut first, &mut second);
    for sweep in [&report.ordered, &report.hashed] {
        assert_eq!(sweep.len(), 10);
        for (i, s) in sweep.iter().enumerate() {
            assert_eq!(s.n, 1u64 << i);
        }
    }
}

#[test]
fn run_in_throughput_mode() {
    let mut first = rand::thread_rng();
    let mut second = rand::thread_rng();
    let mode = Mode::Throughput { max: 100, repeats: 10, count: 2 };
    match run(mode, &mut first, &mut second) {
        Some(Outcome::Throughput(report)) => {
            check_shape(&report.ordered, 10, 2);
            check_shape(&report.hashed, 10, 2);
        }
        _ => panic!("a throughput run hands back throughput measurements"),
    }
    let mode = Mode::Throughput { max: 0, repeats: 10, count: 2 };
    assert_eq!(run(mode, &mut first, &mut second), None);
}

#[test]
fn samples_compare_field_by_field() {
    let a = Sample { iter: 3, observed: 1, elapsed_ns: 10 };
    let b = Sample { iter: 3, observed: 1, elapsed_ns: 10 };
    let c = Sample { iter: 3, observed: 2, elapsed_ns: 10 };
    assert_eq!(a, b);
    assert_ne!(a, c);
    let d = ChurnSample { n: 4, elapsed_ns: 9 };
    assert_eq!(d, ChurnSample { n: 4, elapsed_ns: 9 });
    assert_ne!(d, ChurnSample { n: 8, elapsed_ns: 9 });
}
