use t2fand::filter::{MovingAverageFilter, MAX_WINDOW};

#[test]
fn window_of_three_evicts_the_oldest() {
    let mut f = MovingAverageFilter::new(3).unwrap();
    f.push(10);
    f.push(20);
    f.push(30);
    assert_eq!(f.mean(), Some(20));
    f.push(60);
    assert_eq!(f.mean(), Some(36));
    assert_eq!(f.len(), 3);
}

#[test]
fn mean_of_a_filling_window_counts_what_is_there() {
    let mut f = MovingAverageFilter::new(5).unwrap();
    assert_eq!(f.mean(), None);
    assert_eq!(f.len(), 0);
    f.push(40);
    assert_eq!(f.mean(), Some(40));
    f.push(43);
    assert_eq!(f.mean(), Some(41));
    f.push(255);
    assert_eq!(f.mean(), Some(112));
    assert_eq!(f.len(), 3);
    assert_eq!(f.max_len(), 5);
}

#[test]
fn window_of_one_holds_the_newest() {
    let mut f = MovingAverageFilter::new(1).unwrap();
    for sample in [7u8, 200, 0, 255] {
        f.push(sample);
        assert_eq!(f.mean(), Some(sample));
        assert_eq!(f.len(), 1);
    }
}

#[test]
fn widest_window_evicts_the_oldest() {
    assert_eq!(MAX_WINDOW, 50);
    let mut f = MovingAverageFilter::new(MAX_WINDOW).unwrap();
    for _ in 0..50 {
        f.push(255);
    }
    assert_eq!(f.len(), 50);
    assert_eq!(f.mean(), Some(255));
    f.push(5);
    assert_eq!(f.len(), 50);
    assert_eq!(f.mean(), Some(((49 * 255 + 5) / 50) as u8));
    for _ in 0..49 {
        f.push(5);
    }
    assert_eq!(f.mean(), Some(5));
}

#[test]
fn window_must_hold_one_to_fifty() {
    assert!(MovingAverageFilter::new(0).is_none());
    assert!(MovingAverageFilter::new(1).is_some());
    assert!(MovingAverageFilter::new(50).is_some());
    assert!(MovingAverageFilter::new(51).is_none());
    assert!(MovingAverageFilter::new(usize::MAX).is_none());
}

#[test]
fn order_of_arrival_decides_who_leaves() {
    let mut f = MovingAverageFilter::new(2).unwrap();
    f.push(100);
    f.push(0);
    f.push(0);
    assert_eq!(f.mean(), Some(0));
    f.push(100);
    assert_eq!(f.mean(), Some(50));
}
