use chain_sync::ibf::{Ibf, IbfElem};

fn create_blt(elements: impl IntoIterator<Item = u64>, capacity: usize) -> Ibf {
    let mut sketch = Ibf::new(capacity, 0);
    for item in elements.into_iter() {
        sketch.add(item);
    }
    sketch
}

#[test]
fn create_blt_test() {
    let set = 1000000_3_00000u64..1000000_301000u64;

    assert_eq!(1000, create_blt(set, 2048).recover().unwrap().len())
}

#[test]
fn new_sketch_is_empty_and_recovers_nothing() {
    let mut sketch = Ibf::new(8, 0);
    assert_eq!(sketch.data.len(), 10);
    assert!(sketch.data.iter().all(|c| c.xor_elem == 0 && c.xor_hash == 0));
    let (recovered, difference) = sketch.try_recover();
    assert!(recovered.is_empty());
    assert_eq!(difference, 0);
}

#[test]
fn add_then_remove_cancels_out() {
    let mut sketch = Ibf::new(8, 0);
    sketch.add(17);
    sketch.remove(17);
    assert!(sketch.data.iter().all(|c| c.xor_elem == 0 && c.xor_hash == 0));
}

#[test]
fn a_single_element_is_recovered() {
    let mut sketch = Ibf::new(8, 0);
    sketch.add(7);
    let recovered = sketch.recover().unwrap();
    assert_eq!(recovered, vec![7]);
}

#[test]
fn cells_store_a_digest_not_the_element() {
    let mut sketch = Ibf::new(8, 0);
    sketch.add(7);
    let holding: Vec<&IbfElem> = sketch.data.iter().filter(|c| c.xor_elem == 7).collect();
    assert!(!holding.is_empty());
    for cell in holding {
        assert_ne!(cell.xor_hash, 7);
    }
}

#[test]
fn the_seed_changes_the_digests() {
    let mut with_seed_zero = Ibf::new(8, 0);
    with_seed_zero.add(7);
    let mut with_seed_one = Ibf::new(8, 1);
    with_seed_one.add(7);
    assert_ne!(with_seed_zero.data, with_seed_one.data);
}

#[test]
fn merge_refuses_unequal_size_or_seed() {
    let mut sketch = Ibf::new(8, 0);
    let smaller = Ibf::new(4, 0);
    assert!(!sketch.merge(&smaller.data, smaller.seed));
    let other_seed = Ibf::new(8, 1);
    assert!(!sketch.merge(&other_seed.data, other_seed.seed));
}

#[test]
fn merge_recovers_the_set_difference() {
    let mut ours = create_blt(vec![1, 2, 3, 100], 16);
    let theirs = create_blt(vec![1, 2, 3, 200], 16);
    assert!(ours.merge(&theirs.data, theirs.seed));
    let mut recovered = ours.recover().unwrap();
    recovered.sort_unstable();
    assert_eq!(recovered, vec![100, 200]);
}

#[test]
fn from_vec_round_trips_the_cells() {
    let sketch = create_blt(vec![5, 6], 8);
    let reloaded = Ibf::from_vec(sketch.data.clone(), sketch.seed);
    assert_eq!(reloaded.data, sketch.data);
    assert_eq!(reloaded.seed, sketch.seed);
    assert_eq!(reloaded.k, sketch.k);
}

#[test]
fn corrupt_cells_cannot_be_recovered() {
    let mut bad = Ibf::from_vec(
        vec![IbfElem { xor_elem: 5, xor_hash: 0 }; 4],
        0,
    );
    assert_eq!(bad.recover().unwrap_err(), "unable to recover result");
}
