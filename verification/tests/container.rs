use map_bench::container::Container;
use std::collections::BTreeMap;
use std::collections::HashMap;

fn insert_then_lookup<M: Container>(m: &mut M) {
    assert_eq!(m.insert(7, 70), None);
    assert_eq!(m.insert(8, 80), None);
    assert_eq!(m.remove(&9), None);
    assert_eq!(m.get(&7), Some(&70));
    assert_eq!(m.get(&8), Some(&80));
}

fn insert_hands_back_previous<M: Container>(m: &mut M) {
    assert_eq!(m.insert(3, 30), None);
    assert_eq!(m.insert(4, 40), None);
    assert_eq!(m.insert(3, 31), Some(30));
    assert_eq!(m.insert(3, 32), Some(31));
    assert_eq!(m.get(&3), Some(&32));
    assert_eq!(m.len(), 2);
}

fn remove_then_lookup<M: Container>(m: &mut M) {
    assert_eq!(m.insert(5, 50), None);
    assert_eq!(m.insert(6, 60), None);
    assert_eq!(m.remove(&5), Some(50));
    assert_eq!(m.get(&5), None);
    assert_eq!(m.remove(&5), None);
    assert_eq!(m.remove(&6), Some(60));
    assert_eq!(m.get(&5), None);
    assert_eq!(m.len(), 0);
}

fn size_grows_by_one_per_new_key<M: Container>(m: &mut M) {
    assert_eq!(m.len(), 0);
    let keys: [i64; 6] = [10, -3, 0, i64::MAX, i64::MIN, 42];
    let mut expected = 0;
    for k in keys {
        let before = m.len();
        assert_eq!(m.insert(k, 1), None);
        expected += 1;
        assert_eq!(m.len(), before + 1);
        assert_eq!(m.len(), expected);
    }
    for k in keys {
        let before = m.len();
        assert_eq!(m.insert(k, 2), Some(1));
        assert_eq!(m.len(), before);
    }
}

fn churn_restores_size<M: Container>(m: &mut M) {
    m.insert(1, 10);
    m.insert(2, 20);
    let before = m.len();
    assert_eq!(m.insert(3, 1), None);
    assert_eq!(m.len(), before + 1);
    assert_eq!(m.remove(&3), Some(1));
    assert_eq!(m.len(), before);
    assert_eq!(m.get(&1), Some(&10));
    assert_eq!(m.get(&2), Some(&20));
}

fn churn_of_a_present_key_drops_it<M: Container>(m: &mut M) {
    m.insert(5, 9);
    assert_eq!(m.len(), 1);
    assert_eq!(m.insert(5, 1), Some(9));
    assert_eq!(m.remove(&5), Some(1));
    assert_eq!(m.len(), 0);
}

#[test]
fn ordered_insert_then_lookup() {
    insert_then_lookup(&mut BTreeMap::new());
}

#[test]
fn hashed_insert_then_lookup() {
    insert_then_lookup(&mut HashMap::new());
}

#[test]
fn ordered_insert_hands_back_previous() {
    insert_hands_back_previous(&mut BTreeMap::new());
}

#[test]
fn hashed_insert_hands_back_previous() {
    insert_hands_back_previous(&mut HashMap::new());
}

#[test]
fn ordered_remove_then_lookup() {
    remove_then_lookup(&mut BTreeMap::new());
}

#[test]
fn hashed_remove_then_lookup() {
    remove_then_lookup(&mut HashMap::new());
}

#[test]
fn ordered_size_grows_by_one_per_new_key() {
    size_grows_by_one_per_new_key(&mut BTreeMap::new());
}

#[test]
fn hashed_size_grows_by_one_per_new_key() {
    size_grows_by_one_per_new_key(&mut HashMap::new());
}

#[test]
fn ordered_churn_restores_size() {
    churn_restores_size(&mut BTreeMap::new());
}

#[test]
fn hashed_churn_restores_size() {
    churn_restores_size(&mut HashMap::new());
}

#[test]
fn ordered_churn_of_a_present_key_drops_it() {
    churn_of_a_present_key_drops_it(&mut BTreeMap::new());
}

#[test]
fn hashed_churn_of_a_present_key_drops_it() {
    churn_of_a_present_key_drops_it(&mut HashMap::new());
}

#[test]
fn lookup_in_an_empty_container_reports_absence() {
    let tree: BTreeMap<i64, i64> = BTreeMap::new();
    let table: HashMap<i64, i64> = HashMap::new();
    assert_eq!(Container::get(&tree, &0), None);
    assert_eq!(Container::get(&table, &0), None);
    assert_eq!(Container::len(&tree), 0);
    assert_eq!(Container::len(&table), 0);
}
