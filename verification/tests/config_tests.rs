use whisper_stream::config::StreamConfig;

#[test]
fn capacity_is_twice_the_nominal_window() {
    let c = StreamConfig::new(4000, 2, 2, 16000).unwrap();
    // 2 * (4000 ms * 16 kHz / 1000) * 2 iterations
    assert_eq!(c.window_capacity, 256000);
    assert_eq!(c.latency_ms, 4000);
    assert_eq!(c.window_depth, 2);
    assert_eq!(c.carry_depth, 2);
    assert_eq!(c.sample_rate, 16000);
}

#[test]
fn zero_or_oversized_options_are_rejected() {
    assert!(StreamConfig::new(0, 2, 2, 16000).is_none());
    assert!(StreamConfig::new(4000, 0, 2, 16000).is_none());
    assert!(StreamConfig::new(4000, 2, 0, 16000).is_none());
    assert!(StreamConfig::new(4000, 2, 2, 0).is_none());
    assert!(StreamConfig::new(2000000, 2, 2, 16000).is_none());
    // so short and slow that not one sample fits an iteration
    assert!(StreamConfig::new(1, 2, 2, 500).is_none());
}
