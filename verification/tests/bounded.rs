use otel_cli::bounded::{push_back_evict, push_front_evict, MAX_POINTS, MAX_UPDATES};
use std::collections::VecDeque;

#[test]
fn capacities_are_one_hundred() {
    assert_eq!(MAX_POINTS, 100);
    assert_eq!(MAX_UPDATES, 100);
}

#[test]
fn push_back_evict_grows_until_full() {
    let mut buf: VecDeque<u32> = VecDeque::new();
    push_back_evict(&mut buf, 1, 3);
    push_back_evict(&mut buf, 2, 3);
    push_back_evict(&mut buf, 3, 3);
    assert_eq!(buf, VecDeque::from(vec![1, 2, 3]));
}

#[test]
fn push_back_evict_drops_the_oldest() {
    let mut buf: VecDeque<u32> = VecDeque::new();
    for i in 1..=5 {
        push_back_evict(&mut buf, i, 3);
    }
    assert_eq!(buf, VecDeque::from(vec![3, 4, 5]));
}

#[test]
fn push_front_evict_keeps_the_newest_first() {
    let mut buf: VecDeque<u32> = VecDeque::new();
    for i in 1..=5 {
        push_front_evict(&mut buf, i, 3);
    }
    assert_eq!(buf, VecDeque::from(vec![5, 4, 3]));
}

#[test]
fn a_buffer_over_its_capacity_loses_one_entry_per_push() {
    let mut buf: VecDeque<u32> = VecDeque::from(vec![1, 2, 3, 4, 5]);
    push_back_evict(&mut buf, 6, 3);
    assert_eq!(buf, VecDeque::from(vec![2, 3, 4, 5, 6]));
    push_front_evict(&mut buf, 0, 3);
    assert_eq!(buf, VecDeque::from(vec![0, 2, 3, 4, 5]));
}

#[test]
fn capacity_zero_keeps_nothing() {
    let mut buf: VecDeque<u32> = VecDeque::new();
    push_back_evict(&mut buf, 1, 0);
    assert!(buf.is_empty());
    push_front_evict(&mut buf, 1, 0);
    assert!(buf.is_empty());
}
