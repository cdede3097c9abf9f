use iter_index::IndexerIterator;
use iter_index::VecSource;

#[test]
fn exhaustion_is_stable() {
    let items = vec![5_u64];
    let mut it = VecSource::new(items).index::<u32>();
    assert_eq!(it.next(), Some((0_u32, 5_u64)));
    assert_eq!(it.next(), None);
    assert_eq!(it.next(), None);
    assert_eq!(it.next(), None);
}

#[test]
fn empty_sequence_yields_nothing() {
    let items: Vec<u64> = Vec::new();
    let mut it = VecSource::new(items).index::<usize>();
    assert_eq!(it.next(), None);
    assert_eq!(it.len(), 0);
}

#[test]
fn skip_equivalence_on_values() {
    let items = vec![10_u64, 20, 30, 40, 50];
    let mut skipping = VecSource::new(items.clone()).index_step::<i32>(7, 3);
    let mut stepping = VecSource::new(items).index_step::<i32>(7, 3);

    let from_skip = skipping.nth(2).unwrap();
    stepping.next();
    stepping.next();
    let from_steps = stepping.next();
    assert_eq!(from_skip, from_steps);
    assert_eq!(from_skip, Some((13_i32, 30_u64)));

    // Both adapters are left in the same state: the traversals keep agreeing.
    assert_eq!(skipping.next(), stepping.next());
    assert_eq!(skipping.next(), stepping.next());
    assert_eq!(skipping.next(), None);
}

#[test]
fn nth_zero_is_single_step() {
    let items = vec![10_u64, 20, 30];
    let mut skipping = VecSource::new(items.clone()).index_start::<u8>(4);
    let mut stepping = VecSource::new(items).index_start::<u8>(4);
    assert_eq!(skipping.nth(0).unwrap(), stepping.next());
    assert_eq!(skipping.next(), stepping.next());
}

#[test]
fn nth_past_the_end_exhausts() {
    let items = vec![1_u64, 2, 3];
    let mut it = VecSource::new(items).index_start::<u8>(40);
    assert_eq!(it.nth(5).unwrap(), None);
    // The counter did not move, but the inner sequence is spent.
    assert_eq!(it.next(), None);
}

#[test]
fn size_is_preserved() {
    let items = vec![1_u64, 2, 3, 4];
    let mut it = VecSource::new(items.clone()).index_step::<i16>(-8, -2);
    assert_eq!(it.len(), 4);
    assert_eq!(it.size_hint(), (4, Some(4)));
    assert_eq!(it.next(), Some((-8_i16, 1_u64)));
    assert_eq!(it.len(), 3);
    assert_eq!(it.size_hint(), (3, Some(3)));
    assert_eq!(VecSource::new(items).index::<u8>().count(), 4);
}

#[test]
fn reverse_symmetry_on_values() {
    let items = vec!["w", "x", "y", "z"];
    let mut forward = VecSource::new(items.clone()).index_step::<i32>(5, 11);
    let mut forward_pairs: Vec<(i32, &str)> = Vec::new();
    while let Some(p) = forward.next() {
        forward_pairs.push(p);
    }

    let mut backward = VecSource::new(items).index_step::<i32>(5, 11);
    let mut backward_pairs: Vec<(i32, &str)> = Vec::new();
    while let Some(p) = backward.next_back().unwrap() {
        backward_pairs.push(p);
    }
    backward_pairs.reverse();

    assert_eq!(backward_pairs, forward_pairs);
}

#[test]
fn back_step_leaves_counter_alone() {
    let items = vec!["a", "b", "c", "d"];
    let mut it = VecSource::new(items).index_step::<i16>(100, 10);
    assert_eq!(it.next_back().unwrap(), Some((130, "d")));
    assert_eq!(it.next(), Some((100, "a")));
    assert_eq!(it.next_back().unwrap(), Some((120, "c")));
    assert_eq!(it.next(), Some((110, "b")));
    assert_eq!(it.next(), None);
}

#[test]
fn back_step_conversion_error() {
    let items: Vec<u16> = (0_u16..300).collect();
    let mut it = VecSource::new(items).index::<u8>();
    let err = it.next_back().unwrap_err();
    assert_eq!(err.target_type, "u8");
}

#[test]
fn nth_back_conversion_error() {
    let items: Vec<u16> = (0_u16..300).collect();
    let mut it = VecSource::new(items).index_start::<u8>(1);
    let err = it.nth_back(2).unwrap_err();
    assert_eq!(err.target_type, "u8");
}

#[test]
fn nth_back_past_the_end_exhausts() {
    let items = vec![1_u64, 2];
    let mut it = VecSource::new(items).index::<usize>();
    assert_eq!(it.nth_back(2).unwrap(), None);
    assert_eq!(it.next(), None);
}

#[test]
fn index_with_usize_and_u32() {
    let items = vec!["p", "q"];
    let mut it = VecSource::new(items.clone()).index::<usize>();
    assert_eq!(it.next(), Some((0_usize, "p")));
    assert_eq!(it.next(), Some((1_usize, "q")));

    let mut it = VecSource::new(items).index_step::<u32>(1000, 1000);
    assert_eq!(it.next(), Some((1000_u32, "p")));
    assert_eq!(it.next(), Some((2000_u32, "q")));
}
