use map_bench::container::Container;
use map_bench::keys::UniformKeys;
use map_bench::throughput::bench;
use map_bench::throughput::check_counts;
use map_bench::throughput::check_workload;
use map_bench::throughput::fold_byte;
use map_bench::throughput::insert_batch;
use map_bench::throughput::insert_key;
use map_bench::throughput::insert_phase;
use map_bench::throughput::lookup_batch;
use map_bench::throughput::lookup_phase;
use map_bench::throughput::probe;
use map_bench::throughput::rng_batch;
use map_bench::throughput::rng_phase;
use std::collections::BTreeMap;
use std::collections::HashMap;

#[test]
fn fold_byte_adds_the_low_byte_and_wraps() {
    assert_eq!(fold_byte(0, 0), 0);
    assert_eq!(fold_byte(0, 5), 5);
    assert_eq!(fold_byte(255, 1), 0);
    assert_eq!(fold_byte(200, 100), 44);
    assert_eq!(fold_byte(7, 256), 7);
    assert_eq!(fold_byte(7, 0x1234), 7 + 0x34);
    assert_eq!(fold_byte(0, -1), 255);
    assert_eq!(fold_byte(1, -1), 0);
    assert_eq!(fold_byte(0, i64::MIN), 0);
    assert_eq!(fold_byte(0, i64::MAX), 255);
}

#[test]
fn insert_key_stores_the_key_less_one() {
    let mut m: BTreeMap<i64, i64> = BTreeMap::new();
    insert_key(&mut m, 10);
    insert_key(&mut m, 0);
    insert_key(&mut m, i64::MAX);
    insert_key(&mut m, 10);
    assert_eq!(m.len(), 3);
    assert_eq!(m.get(&10), Some(&9));
    assert_eq!(m.get(&0), Some(&-1));
    assert_eq!(m.get(&i64::MAX), Some(&(i64::MAX - 1)));
}

#[test]
fn insert_key_overwrites_what_was_there() {
    let mut m: HashMap<i64, i64> = HashMap::new();
    m.insert(4, 400);
    insert_key(&mut m, 4);
    assert_eq!(m.len(), 1);
    assert_eq!(m.get(&4), Some(&3));
}

#[test]
fn probe_counts_a_miss_and_folds_a_hit() {
    let mut m: HashMap<i64, i64> = HashMap::new();
    m.insert(4, 0x1ff);
    m.insert(5, 3);
    assert_eq!(probe(&m, 4, 10), (false, 9));
    assert_eq!(probe(&m, 5, 10), (false, 13));
    assert_eq!(probe(&m, 6, 10), (true, 10));
}

#[test]
fn insert_batch_with_one_possible_key() {
    let mut rng = rand::thread_rng();
    let keys = UniformKeys::new(1);
    let mut m: BTreeMap<i64, i64> = BTreeMap::new();
    m.insert(0, 77);
    m.insert(9, 99);
    insert_batch(&mut m, &keys, 4, &mut rng);
    assert_eq!(m.len(), 2);
    assert_eq!(m.get(&0), Some(&-1));
    assert_eq!(m.get(&9), Some(&99));
}

#[test]
fn insert_batch_of_no_rounds_changes_nothing() {
    let mut rng = rand::thread_rng();
    let keys = UniformKeys::new(100);
    let mut m: BTreeMap<i64, i64> = BTreeMap::new();
    m.insert(3, 33);
    insert_batch(&mut m, &keys, 0, &mut rng);
    insert_batch(&mut m, &keys, -5, &mut rng);
    assert_eq!(m.len(), 1);
    assert_eq!(m.get(&3), Some(&33));
}

#[test]
fn insert_batch_binds_keys_in_range_to_the_key_less_one() {
    let mut rng = rand::thread_rng();
    let keys = UniformKeys::new(50);
    let mut m: HashMap<i64, i64> = HashMap::new();
    insert_batch(&mut m, &keys, 1000, &mut rng);
    assert!(m.len() >= 1 && m.len() <= 50);
    for (k, v) in m.iter() {
        assert!(0 <= *k && *k < 50);
        assert_eq!(*v, *k - 1);
    }
}

#[test]
fn lookup_batch_in_an_empty_container_misses_every_time() {
    let mut rng = rand::thread_rng();
    let keys = UniformKeys::new(1000);
    let m: BTreeMap<i64, i64> = BTreeMap::new();
    assert_eq!(lookup_batch(&m, &keys, 25, 9, &mut rng), (25, 9));
    assert_eq!(lookup_batch(&m, &keys, 0, 9, &mut rng), (0, 9));
    assert_eq!(lookup_batch(&m, &keys, -1, 9, &mut rng), (0, 9));
}

#[test]
fn lookup_batch_folds_every_hit() {
    let mut rng = rand::thread_rng();
    let keys = UniformKeys::new(1);
    let mut m: HashMap<i64, i64> = HashMap::new();
    m.insert(0, 3);
    assert_eq!(lookup_batch(&m, &keys, 5, 1, &mut rng), (0, 16));
    assert_eq!(lookup_batch(&m, &keys, 100, 0, &mut rng), (0, 44));
}

#[test]
fn rng_batch_folds_every_key() {
    let mut rng = rand::thread_rng();
    let zero = UniformKeys::new(1);
    assert_eq!(rng_batch(&zero, 10, 42, &mut rng), 42);
    assert_eq!(rng_batch(&zero, 0, 42, &mut rng), 42);
    let two = UniformKeys::new(2);
    let sum = rng_batch(&two, 20, 0, &mut rng);
    assert!(sum <= 20);
}

#[test]
fn insert_phase_reports_counts_and_sizes() {
    let mut rng = rand::thread_rng();
    let keys = UniformKeys::new(20);
    let mut m: BTreeMap<i64, i64> = BTreeMap::new();
    let samples = insert_phase(&mut m, &keys, 7, 6, &mut rng);
    assert_eq!(samples.len(), 6);
    let mut last = 0;
    for (k, s) in samples.iter().enumerate() {
        assert_eq!(s.iter, (k as i64 + 1) * 7);
        assert!(s.observed >= last);
        assert!(s.observed >= 1 && s.observed <= 20);
        assert!(s.observed <= (k as u64 + 1) * 7);
        last = s.observed;
    }
    assert_eq!(last, m.len() as u64);
}

#[test]
fn insert_phase_counts_what_was_there_before() {
    let mut rng = rand::thread_rng();
    let keys = UniformKeys::new(1);
    let mut m: HashMap<i64, i64> = HashMap::new();
    m.insert(100, 1);
    m.insert(200, 2);
    let samples = insert_phase(&mut m, &keys, 3, 2, &mut rng);
    assert_eq!(samples.len(), 2);
    assert_eq!((samples[0].iter, samples[0].observed), (3, 3));
    assert_eq!((samples[1].iter, samples[1].observed), (6, 3));
}

#[test]
fn insert_phase_without_batches_is_empty() {
    let mut rng = rand::thread_rng();
    let keys = UniformKeys::new(5);
    let mut m: BTreeMap<i64, i64> = BTreeMap::new();
    assert_eq!(insert_phase(&mut m, &keys, 10, 0, &mut rng).len(), 0);
    assert_eq!(insert_phase(&mut m, &keys, 10, -3, &mut rng).len(), 0);
    assert_eq!(m.len(), 0);
}

#[test]
fn insert_phase_with_empty_batches() {
    let mut rng = rand::thread_rng();
    let keys = UniformKeys::new(5);
    let mut m: BTreeMap<i64, i64> = BTreeMap::new();
    let samples = insert_phase(&mut m, &keys, -2, 3, &mut rng);
    assert_eq!(samples.len(), 3);
    assert_eq!((samples[0].iter, samples[0].observed), (-2, 0));
    assert_eq!((samples[1].iter, samples[1].observed), (-4, 0));
    assert_eq!((samples[2].iter, samples[2].observed), (-6, 0));
    assert_eq!(m.len(), 0);
}

#[test]
fn lookup_phase_counts_misses_batch_by_batch() {
    let mut rng = rand::thread_rng();
    let keys = UniformKeys::new(1000);
    let m: BTreeMap<i64, i64> = BTreeMap::new();
    let (samples, sum) = lookup_phase(&m, &keys, 9, 4, 17, &mut rng);
    assert_eq!(sum, 17);
    assert_eq!(samples.len(), 4);
    for (k, s) in samples.iter().enumerate() {
        assert_eq!(s.iter, (k as i64 + 1) * 9);
        assert_eq!(s.observed, 9);
    }
}

#[test]
fn lookup_phase_carries_the_checksum_across_batches() {
    let mut rng = rand::thread_rng();
    let keys = UniformKeys::new(1);
    let mut m: HashMap<i64, i64> = HashMap::new();
    m.insert(0, 2);
    let (samples, sum) = lookup_phase(&m, &keys, 5, 3, 1, &mut rng);
    assert_eq!(sum, 31);
    assert_eq!(samples.len(), 3);
    for s in samples.iter() {
        assert_eq!(s.observed, 0);
    }
}

#[test]
fn rng_phase_has_one_time_for_each_batch() {
    let mut rng = rand::thread_rng();
    let keys = UniformKeys::new(1);
    let (times, sum) = rng_phase(&keys, 100, 7, 5, &mut rng);
    assert_eq!(times.len(), 7);
    assert_eq!(sum, 5);
    let (times, sum) = rng_phase(&keys, 100, 0, 5, &mut rng);
    assert_eq!(times.len(), 0);
    assert_eq!(sum, 5);
}

#[test]
fn check_counts_accepts_what_fits_in_64_bits() {
    assert!(check_counts(1000, 5));
    assert!(check_counts(0, 5));
    assert!(check_counts(-3, 5));
    assert!(check_counts(i64::MAX, 1));
    assert!(check_counts(i64::MIN, 1));
    assert!(check_counts(1 << 31, 1 << 31));
    assert!(check_counts(i64::MAX, 0));
    assert!(check_counts(i64::MAX, -7));
}

#[test]
fn check_counts_refuses_what_overflows() {
    assert!(!check_counts(i64::MAX, 2));
    assert!(!check_counts(i64::MIN, 2));
    assert!(!check_counts(1 << 32, 1 << 31));
    assert!(!check_counts(2, i64::MAX));
}

#[test]
fn check_workload_wants_a_key_range_that_is_not_empty() {
    assert!(check_workload(1, 1000, 5));
    assert!(check_workload(1000000, 1000, 5));
    assert!(!check_workload(0, 1000, 5));
    assert!(!check_workload(-1, 1000, 5));
    assert!(!check_workload(10, i64::MAX, 2));
}

#[test]
fn bench_with_one_possible_key_is_determined() {
    let mut rng = rand::thread_rng();
    let mut m: BTreeMap<i64, i64> = BTreeMap::new();
    let t = bench(&mut m, 1, 3, 2, &mut rng);
    assert_eq!(t.insert.len(), 2);
    assert_eq!((t.insert[0].iter, t.insert[0].observed), (3, 1));
    assert_eq!((t.insert[1].iter, t.insert[1].observed), (6, 1));
    assert_eq!(t.lookup.len(), 2);
    assert_eq!((t.lookup[0].iter, t.lookup[0].observed), (3, 0));
    assert_eq!((t.lookup[1].iter, t.lookup[1].observed), (6, 0));
    assert_eq!(t.rng.len(), 2);
    assert_eq!(t.checksum, 250);
    assert_eq!(m.len(), 1);
    assert_eq!(m.get(&0), Some(&-1));
}

#[test]
fn bench_on_a_hash_map() {
    let mut rng = rand::thread_rng();
    let mut m: HashMap<i64, i64> = HashMap::new();
    let t = bench(&mut m, 64, 100, 4, &mut rng);
    assert_eq!(t.insert.len(), 4);
    assert_eq!(t.lookup.len(), 4);
    assert_eq!(t.rng.len(), 4);
    let mut last = 0;
    for (k, s) in t.insert.iter().enumerate() {
        assert_eq!(s.iter, (k as i64 + 1) * 100);
        assert!(s.observed >= last && s.observed <= 64);
        last = s.observed;
    }
    assert_eq!(last, Container::len(&m) as u64);
    for (k, s) in t.lookup.iter().enumerate() {
        assert_eq!(s.iter, (k as i64 + 1) * 100);
        assert!(s.observed <= 100);
    }
    for (k, v) in m.iter() {
        assert!(0 <= *k && *k < 64);
        assert_eq!(*v, *k - 1);
    }
}

#[test]
fn bench_without_batches_reports_nothing() {
    let mut rng = rand::thread_rng();
    let mut m: BTreeMap<i64, i64> = BTreeMap::new();
    let t = bench(&mut m, 10, 1000, 0, &mut rng);
    assert_eq!(t.insert.len(), 0);
    assert_eq!(t.lookup.len(), 0);
    assert_eq!(t.rng.len(), 0);
    assert_eq!(t.checksum, 0);
    assert_eq!(m.len(), 0);
}
