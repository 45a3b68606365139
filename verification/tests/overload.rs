use ringbuf::HeapRb;
use whisper_stream::config::StreamConfig;
use whisper_stream::session::Session;

#[test]
fn overloaded_producer_drops_samples_but_the_stream_stays_contiguous() {
    // a capture channel of capacity 4, pushed 6 samples: two pushes fail
    let rb = HeapRb::<f32>::new(4);
    let (mut producer, mut consumer) = rb.split();
    let mut failed: usize = 0;
    for i in 0..6 {
        if producer.push(i as f32 + 0.5).is_err() {
            failed += 1;
        }
    }
    assert_eq!(failed, 2);
    let drained: Vec<f32> = consumer.pop_iter().collect();
    assert_eq!(drained, vec![0.5, 1.5, 2.5, 3.5]);

    // what was drained flows into the session as bit patterns, gap-free
    let bits: Vec<u32> = drained.iter().map(|s| s.to_bits()).collect();
    let cfg = StreamConfig::new(4000, 2, 2, 16000).unwrap();
    let mut s = Session::new(cfg);
    let plan = s.begin_iteration(&bits);
    assert_eq!(plan.window.len(), 4);
    let back: Vec<f32> = plan.window.iter().map(|b| f32::from_bits(*b)).collect();
    assert_eq!(back, drained);
}
