use whisper_stream::window::SlidingWindow;

#[test]
fn eviction_is_exactly_the_count_recorded_k_iterations_ago() {
    let mut w = SlidingWindow::new(2, 100);
    assert_eq!(w.advance(&vec![1, 2, 3]), 0);
    assert_eq!(w.window_to_vec(), vec![1, 2, 3]);
    assert_eq!(w.advance(&vec![4, 5]), 0);
    assert_eq!(w.window_to_vec(), vec![1, 2, 3, 4, 5]);
    // the third advance evicts exactly the 3 samples recorded first
    assert_eq!(w.advance(&vec![6]), 3);
    assert_eq!(w.window_to_vec(), vec![4, 5, 6]);
    assert_eq!(w.advance(&vec![7, 8]), 2);
    assert_eq!(w.window_to_vec(), vec![6, 7, 8]);
    assert_eq!(w.window_len(), 3);
}

#[test]
fn window_never_exceeds_capacity_and_drops_the_overflow() {
    let mut w = SlidingWindow::new(1, 5);
    assert_eq!(w.advance(&vec![1, 2, 3, 4, 5, 6, 7]), 0);
    assert_eq!(w.window_to_vec(), vec![1, 2, 3, 4, 5]);
    // what was recorded is what was accepted, so that is what leaves
    assert_eq!(w.advance(&vec![9]), 5);
    assert_eq!(w.window_to_vec(), vec![9]);
}

#[test]
fn retained_counts_always_sum_to_window_length() {
    let mut w = SlidingWindow::new(3, 1000);
    // the count ring starts as three zeros; every advance records the new
    // count and evicts the oldest recorded one
    let mut recorded: Vec<usize> = vec![0, 0, 0];
    for n in [5usize, 0, 7, 3, 4] {
        let data: Vec<u32> = (0..n as u32).collect();
        let evicted = w.advance(&data);
        assert_eq!(evicted, recorded.remove(0));
        recorded.push(n);
        assert_eq!(w.window_len(), recorded.iter().sum::<usize>());
    }
}
