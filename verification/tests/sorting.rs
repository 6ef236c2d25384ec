//! The sorting harness: both algorithms agree, sort ascending, preserve
//! the multiset of values, and leave sorted input untouched.

use particles_ecs::sort::{bubble_sort, merge_sort};

/// A small deterministic generator, so every run sorts the same "shuffled"
/// input.
fn pseudo_random(n: usize, seed: u64) -> Vec<u64> {
    let mut x = seed;
    let mut v = Vec::with_capacity(n);
    for _ in 0..n {
        x = x.wrapping_mul(6364136223846793005).wrapping_add(1442695040888963407);
        v.push(x >> 16);
    }
    v
}

fn is_sorted(v: &[u64]) -> bool {
    v.windows(2).all(|w| w[0] <= w[1])
}

fn counts(v: &[u64]) -> std::collections::HashMap<u64, usize> {
    let mut m = std::collections::HashMap::new();
    for &x in v {
        *m.entry(x).or_insert(0) += 1;
    }
    m
}

#[test]
fn it_works() {
    assert_eq!(2 + 2, 4);
}

#[test]
fn sorts_agree_on_shuffled_inputs() {
    for &n in &[0usize, 1, 5, 1000] {
        let input = pseudo_random(n, 0xDECAF + n as u64);
        let mut a = input.clone();
        let mut b = input.clone();
        bubble_sort(&mut a);
        merge_sort(&mut b);
        assert_eq!(a, b);
        assert!(is_sorted(&a));
        assert_eq!(counts(&a), counts(&input));
    }
}

#[test]
fn sorts_are_noops_on_sorted_input() {
    for &n in &[0usize, 1, 5, 1000] {
        let mut input = pseudo_random(n, 7 + n as u64);
        input.sort();
        let mut a = input.clone();
        let mut b = input.clone();
        bubble_sort(&mut a);
        merge_sort(&mut b);
        assert_eq!(a, input);
        assert_eq!(b, input);
    }
}

#[test]
fn empty_and_single_element_unchanged() {
    let mut a: Vec<u64> = vec![];
    bubble_sort(&mut a);
    assert_eq!(a, Vec::<u64>::new());
    let mut b: Vec<u64> = vec![];
    merge_sort(&mut b);
    assert_eq!(b, Vec::<u64>::new());

    let mut c: Vec<u64> = vec![42];
    bubble_sort(&mut c);
    assert_eq!(c, vec![42]);
    let mut d: Vec<u64> = vec![42];
    merge_sort(&mut d);
    assert_eq!(d, vec![42]);
}

#[test]
fn duplicates_are_kept() {
    let input: Vec<u64> = vec![5, 3, 5, 1, 3, 3, 0, 5];
    let expected: Vec<u64> = vec![0, 1, 3, 3, 3, 5, 5, 5];
    let mut a = input.clone();
    bubble_sort(&mut a);
    assert_eq!(a, expected);
    let mut b = input.clone();
    merge_sort(&mut b);
    assert_eq!(b, expected);
}

#[test]
fn exact_small_example() {
    let mut v: Vec<u64> = vec![9, 2, 7, 2, 0];
    bubble_sort(&mut v);
    assert_eq!(v, vec![0, 2, 2, 7, 9]);
    let mut w: Vec<u64> = vec![9, 2, 7, 2, 0];
    merge_sort(&mut w);
    assert_eq!(w, vec![0, 2, 2, 7, 9]);
}
