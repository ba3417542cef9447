use clip_relay::history::{HistoryStore, HISTORY_CAPACITY};

fn url(n: usize) -> String {
    format!("https://clips.twitch.tv/embed?clip=Clip{}", n)
}

#[test]
fn new_history_is_empty() {
    let store = HistoryStore::new();
    assert_eq!(store.len(), 0);
    assert_eq!(store.snapshot(), Vec::<String>::new());
}

#[test]
fn capacity_is_one_hundred() {
    assert_eq!(HISTORY_CAPACITY, 100);
}

#[test]
fn append_keeps_insertion_order() {
    let mut store = HistoryStore::new();
    store.append(url(1));
    store.append(url(2));
    store.append(url(3));
    assert_eq!(store.len(), 3);
    assert_eq!(store.snapshot(), vec![url(1), url(2), url(3)]);
}

#[test]
fn length_never_exceeds_capacity() {
    let mut store = HistoryStore::new();
    for n in 0..350 {
        store.append(url(n));
        assert!(store.len() <= 100);
        assert_eq!(store.len(), std::cmp::min(n + 1, 100));
    }
}

#[test]
fn full_history_evicts_the_oldest_first() {
    let mut store = HistoryStore::new();
    for n in 1..=100 {
        store.append(url(n));
    }
    assert_eq!(store.len(), 100);
    assert_eq!(store.snapshot()[0], url(1));
    store.append(url(101));
    assert_eq!(store.len(), 100);
    let snapshot = store.snapshot();
    assert_eq!(snapshot[0], url(2));
    assert_eq!(snapshot[99], url(101));
}

#[test]
fn after_many_appends_the_last_hundred_remain_in_order() {
    let total = 257;
    let mut store = HistoryStore::new();
    for n in 1..=total {
        store.append(url(n));
    }
    let expected: Vec<String> = ((total - 99)..=total).map(url).collect();
    assert_eq!(expected.len(), 100);
    assert_eq!(store.snapshot(), expected);
}

#[test]
fn duplicates_are_kept() {
    let mut store = HistoryStore::new();
    store.append(url(1));
    store.append(url(1));
    assert_eq!(store.snapshot(), vec![url(1), url(1)]);
}

#[test]
fn snapshot_is_a_copy() {
    let mut store = HistoryStore::new();
    store.append(url(1));
    let before = store.snapshot();
    store.append(url(2));
    assert_eq!(before, vec![url(1)]);
    assert_eq!(store.snapshot(), vec![url(1), url(2)]);
}

#[test]
fn interleaved_sources_keep_length_and_order() {
    // Two sources of 120 addresses each, mixed in several fixed patterns.
    let patterns: [&[usize]; 4] = [&[1, 1], &[1, 2], &[3, 1], &[7, 5]];
    for pattern in patterns {
        let mut store = HistoryStore::new();
        let mut merged: Vec<String> = Vec::new();
        let (mut a, mut b) = (0usize, 0usize);
        while a < 120 || b < 120 {
            for _ in 0..pattern[0] {
                if a < 120 {
                    let u = format!("a{}", a);
                    store.append(u.clone());
                    merged.push(u);
                    a += 1;
                }
            }
            for _ in 0..pattern[1] {
                if b < 120 {
                    let u = format!("b{}", b);
                    store.append(u.clone());
                    merged.push(u);
                    b += 1;
                }
            }
            assert!(store.len() <= 100);
        }
        assert_eq!(merged.len(), 240);
        assert_eq!(store.snapshot(), merged[140..].to_vec());
        let snapshot = store.snapshot();
        let of_a: Vec<&String> = snapshot.iter().filter(|u| u.starts_with('a')).collect();
        let mut sorted = of_a.clone();
        sorted.sort_by_key(|u| u[1..].parse::<usize>().unwrap());
        assert_eq!(of_a, sorted);
    }
}
