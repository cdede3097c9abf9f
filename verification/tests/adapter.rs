use std::collections::HashMap;

use iter_index::IndexerIterator;
use iter_index::VecSource;

#[test]
fn index() {
    let items = vec!["a", "b", "c"];
    let mut it = VecSource::new(items).index::<i32>();
    let mut result: Vec<(i32, &str)> = Vec::new();
    while let Some(p) = it.next() {
        result.push(p);
    }
    assert_eq!(result, vec![(0_i32, "a"), (1_i32, "b"), (2_i32, "c")]);
}

#[test]
fn index_type_induced() {
    let mut map = HashMap::<u8, &str>::new();
    let mut it = VecSource::new(vec!["a", "b", "c"]).index();
    while let Some((k, v)) = it.next() {
        map.insert(k, v);
    }
    assert_eq!(map, HashMap::from([(0_u8, "a"), (1_u8, "b"), (2_u8, "c")]));
}

#[test]
fn index_start() {
    let items = vec!["a", "b", "c"];
    let mut it = VecSource::new(items).index_start::<u8>(97);
    let mut result: Vec<(u8, &str)> = Vec::new();
    while let Some(p) = it.next() {
        result.push(p);
    }
    assert_eq!(result, vec![(97_u8, "a"), (98_u8, "b"), (99_u8, "c")]);
}

#[test]
fn index_step() {
    let items = vec!["a", "b", "c"];
    let mut it = VecSource::new(items).index_step::<i16>(100, 10);
    let mut result: Vec<(i16, &str)> = Vec::new();
    while let Some(p) = it.next() {
        result.push(p);
    }
    assert_eq!(result, vec![(100_i16, "a"), (110_i16, "b"), (120_i16, "c")]);
}

#[test]
fn index_nth() {
    let items: Vec<char> = ('a'..='z').collect();
    let mut result = VecSource::new(items).index_step(100, 10);
    assert_eq!(result.next(), Some((100, 'a')));
    assert_eq!(result.nth(5).unwrap(), Some((160, 'g')));
}

#[test]
fn index_nth_error() {
    let items: Vec<u32> = (1_u32..=1000).collect();
    let mut result = VecSource::new(items).index_step::<u8>(10, 2);
    let err = result.nth(500).unwrap_err();
    assert_eq!(err.target_type, "u8");
}

#[test]
fn index_len() {
    let items = vec!["a", "b", "c"];
    assert_eq!(VecSource::new(items).index::<u8>().len(), 3);
}

#[test]
fn index_double_ended_iterator() {
    let items = vec!["a", "b", "c"];
    let mut it = VecSource::new(items).index::<i32>();
    let mut result: Vec<(i32, &str)> = Vec::new();
    while let Some(p) = it.next_back().unwrap() {
        result.push(p);
    }
    assert_eq!(result, vec![(2_i32, "c"), (1_i32, "b"), (0_i32, "a")]);

    let items = vec!["a", "b", "c"];
    let mut it = VecSource::new(items).index_start::<u8>(97);
    let mut result: Vec<(u8, &str)> = Vec::new();
    while let Some(p) = it.next_back().unwrap() {
        result.push(p);
    }
    assert_eq!(result, vec![(99_u8, "c"), (98_u8, "b"), (97_u8, "a")]);

    let items = vec!["a", "b", "c"];
    let mut it = VecSource::new(items).index_step::<i16>(100, 10);
    let mut result: Vec<(i16, &str)> = Vec::new();
    while let Some(p) = it.next_back().unwrap() {
        result.push(p);
    }
    assert_eq!(result, vec![(120_i16, "c"), (110_i16, "b"), (100_i16, "a")]);

    let items = vec!["a", "b", "c", "d"];
    let mut result = VecSource::new(items).index_step::<i16>(100, 10);
    assert_eq!(result.nth_back(2).unwrap(), Some((110, "b")));
}

#[test]
fn tests() {
    let items = vec!["a", "b", "c"];
    let refs: Vec<&&str> = items.iter().collect();
    let mut it = VecSource::new(refs).index::<i32>();
    let mut result: Vec<(i32, &&str)> = Vec::new();
    while let Some(p) = it.next() {
        result.push(p);
    }
    assert_eq!(result, vec![(0_i32, &"a"), (1_i32, &"b"), (2_i32, &"c")]);

    let refs: Vec<&&str> = items.iter().collect();
    let mut it = VecSource::new(refs).index_start::<u8>(97);
    let mut result: Vec<(u8, &&str)> = Vec::new();
    while let Some(p) = it.next() {
        result.push(p);
    }
    assert_eq!(result, vec![(97_u8, &"a"), (98_u8, &"b"), (99_u8, &"c")]);

    let mut it = VecSource::new(items).index_step::<i16>(100, 10);
    let mut result: Vec<(i16, &str)> = Vec::new();
    while let Some(p) = it.next() {
        result.push(p);
    }
    assert_eq!(result, vec![(100_i16, "a"), (110_i16, "b"), (120_i16, "c")]);

    let items: Vec<char> = ('a'..='z').collect();
    let mut result = VecSource::new(items).index_step(100, 10);
    assert_eq!(result.next(), Some((100, 'a')));
    assert_eq!(result.nth(5).unwrap(), Some((160, 'g')));
}
