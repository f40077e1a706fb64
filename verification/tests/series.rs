use rsys_cli::series::{Sample, SlidingWindowSeries};

#[test]
fn add_keeps_time_order() {
    let mut s = SlidingWindowSeries::new();
    s.add(1, 10);
    s.add(2, 20);
    s.add(3, 30);
    assert_eq!(s.len(), 3);
    assert_eq!(s.as_points(), vec![(1, 10), (2, 20), (3, 30)]);
}

#[test]
fn pop_oldest_returns_earliest() {
    let mut s = SlidingWindowSeries::new();
    s.add(1, 10);
    s.add(2, 20);
    let p = s.pop_oldest();
    assert_eq!(p, Some(Sample { time: 1, value: 10 }));
    assert_eq!(s.len(), 1);
    assert_eq!(s.as_points(), vec![(2, 20)]);
}

#[test]
fn pop_oldest_on_empty_is_none() {
    let mut s = SlidingWindowSeries::new();
    assert_eq!(s.pop_oldest(), None);
    assert_eq!(s.len(), 0);
}

#[test]
fn first_peeks_without_removing() {
    let mut s = SlidingWindowSeries::new();
    assert_eq!(s.first(), None);
    s.add(4, 40);
    s.add(9, 90);
    assert_eq!(s.first(), Some(Sample { time: 4, value: 40 }));
    assert_eq!(s.len(), 2);
}

#[test]
fn last_returns_latest() {
    let mut s = SlidingWindowSeries::new();
    assert_eq!(s.last(), None);
    s.add(4, 40);
    s.add(9, 90);
    assert_eq!(s.last(), Some(Sample { time: 9, value: 90 }));
}

#[test]
fn add_accepts_gaps_in_time() {
    let mut s = SlidingWindowSeries::new();
    s.add(1, 1);
    s.add(100, 2);
    s.add(1000, 3);
    assert_eq!(s.as_points(), vec![(1, 1), (100, 2), (1000, 3)]);
}
