use whisper_stream::config::StreamConfig;
use whisper_stream::session::Session;
use whisper_stream::tokens::Token;

fn tok(id: i32, text: &str, t0: i64) -> Token {
    Token { id, text: text.chars().collect(), t0, t1: t0 }
}

fn chars(s: &str) -> Vec<char> {
    s.chars().collect()
}

#[test]
fn growing_transcript_with_eviction() {
    // window depth 2, 4000 ms iterations, 16 kHz
    let cfg = StreamConfig::new(4000, 2, 2, 16000).unwrap();
    let mut s = Session::new(cfg);

    // iteration 1: 8000 samples (500 ms worth); the engine hears "hello"
    let plan1 = s.begin_iteration(&vec![0u32; 8000]);
    assert_eq!(plan1.evicted, 0);
    assert_eq!(plan1.context, Vec::<i32>::new());
    assert_eq!(plan1.window.len(), 8000);
    let e1 = s.complete_iteration(
        vec![tok(50256, "_", 0), tok(1, "hello", 0), tok(50256, "_", 600)],
        600,
    );
    assert_eq!(e1, chars("hello"));
    assert_eq!(s.transcript_chars(), chars("hello"));

    // iteration 2: still warming up, nothing evicted; the previous words
    // are re-emitted whole by the fuller answer
    let plan2 = s.begin_iteration(&vec![0u32; 64000]);
    assert_eq!(plan2.evicted, 0);
    assert_eq!(plan2.context, Vec::<i32>::new());
    assert_eq!(plan2.window.len(), 72000);
    let e2 = s.complete_iteration(
        vec![
            tok(50256, "_", 0),
            tok(1, "hello", 0),
            tok(2, " world", 75),
            tok(50256, "_", 600),
        ],
        600,
    );
    assert_eq!(e2, chars("hello world"));
    assert_eq!(s.transcript_chars(), chars("hello world"));

    // iteration 3: the first eviction removes iteration 1's 8000 samples
    // (500 ms), so "hello" (t0 = 0 ms < 500 ms) becomes a carry candidate
    // and len("hello world") - len("hello") = 6 characters are retracted
    let plan3 = s.begin_iteration(&vec![0u32; 64000]);
    assert_eq!(plan3.evicted, 8000);
    assert_eq!(plan3.context, vec![1]);
    assert_eq!(plan3.window.len(), 128000);
    let e3 = s.complete_iteration(
        vec![tok(50256, "_", 0), tok(3, " world2", 0), tok(50256, "_", 600)],
        600,
    );
    assert_eq!(e3, chars(" world2"));
    assert_eq!(s.transcript_chars(), chars("hello world2"));

    // iteration 4: " world2" is carried too; the context replays both
    // saved lists, oldest first
    let plan4 = s.begin_iteration(&vec![0u32; 64000]);
    assert_eq!(plan4.evicted, 64000);
    assert_eq!(plan4.context, vec![1, 3]);
}

#[test]
fn silence_appends_and_retracts_nothing() {
    // window depth 1: warmed up from iteration 2 on
    let cfg = StreamConfig::new(4000, 1, 2, 16000).unwrap();
    let mut s = Session::new(cfg);

    let _ = s.begin_iteration(&vec![0u32; 8000]);
    let e1 = s.complete_iteration(vec![tok(9, "_", 0), tok(1, "hi", 0), tok(9, "_", 600)], 600);
    assert_eq!(e1, chars("hi"));
    assert_eq!(s.transcript_chars(), chars("hi"));

    // the whole previous iteration is evicted and "hi" carried, so the
    // retraction is 2 - 2 = 0; the engine then hears only silence:
    // nothing appended, nothing retracted
    let plan2 = s.begin_iteration(&vec![0u32; 8000]);
    assert_eq!(plan2.evicted, 8000);
    assert_eq!(plan2.context, vec![1]);
    let e2 = s.complete_iteration(vec![tok(9, "_", 0), tok(9, "_", 600)], 600);
    assert_eq!(e2, Vec::<char>::new());
    assert_eq!(s.transcript_chars(), chars("hi"));

    // and the silent answer causes no retraction next iteration either
    let _ = s.begin_iteration(&vec![0u32; 8000]);
    let e3 = s.complete_iteration(vec![tok(9, "_", 0), tok(4, "more", 0), tok(9, "_", 600)], 600);
    assert_eq!(e3, chars("more"));
    assert_eq!(s.transcript_chars(), chars("himore"));
}

#[test]
fn failed_engine_call_leaves_transcript_untouched() {
    let cfg = StreamConfig::new(4000, 2, 2, 16000).unwrap();
    let mut s = Session::new(cfg);

    let _ = s.begin_iteration(&vec![0u32; 8000]);
    let _ = s.complete_iteration(vec![tok(9, "_", 0), tok(1, "hello", 0), tok(9, "_", 600)], 600);
    assert_eq!(s.transcript_chars(), chars("hello"));

    // the engine call of iteration 2 fails: the pending retraction is
    // discarded and nothing is mutated
    let _ = s.begin_iteration(&vec![0u32; 8000]);
    s.abort_iteration();
    assert_eq!(s.transcript_chars(), chars("hello"));
    assert_eq!(s.transcript_len(), 5);

    // the next iteration sees no previous answer and retracts nothing
    let _ = s.begin_iteration(&vec![0u32; 8000]);
    let e3 = s.complete_iteration(vec![tok(9, "_", 0), tok(7, "fresh", 0), tok(9, "_", 600)], 600);
    assert_eq!(e3, chars("fresh"));
    assert_eq!(s.transcript_chars(), chars("hellofresh"));
}
