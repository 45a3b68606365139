use whisper_stream::align::{reconcile, token_is_carry};
use whisper_stream::config::StreamConfig;
use whisper_stream::tokens::Token;

fn tok(id: i32, text: &str, t0: i64) -> Token {
    Token { id, text: text.chars().collect(), t0, t1: t0 }
}

#[test]
fn carry_needs_warmup_and_an_early_start() {
    let cfg = StreamConfig::new(4000, 2, 2, 16000).unwrap();
    // not yet past warm-up: never a candidate
    assert!(!token_is_carry(0, 600, 8000, 2, &cfg));
    // past warm-up: t0 = 0 ms lies before the 500 ms being evicted
    assert!(token_is_carry(0, 600, 8000, 3, &cfg));
    // the boundary is exact: with 600 model units for 8000 ms, t0 = 37
    // is 493.3 ms and carried, t0 = 38 is 506.7 ms and not
    assert!(token_is_carry(37, 600, 8000, 3, &cfg));
    assert!(!token_is_carry(38, 600, 8000, 3, &cfg));
    // nothing evicted: nothing to carry
    assert!(!token_is_carry(0, 600, 0, 3, &cfg));
}

#[test]
fn retraction_follows_the_carried_text() {
    let cfg = StreamConfig::new(4000, 2, 2, 16000).unwrap();
    let toks = vec![
        tok(9, "_", 0),
        tok(1, "hello", 0),
        tok(2, " world", 75),
        tok(9, "_", 600),
    ];
    // warming up: everything previously shown is retracted for re-emission
    let r = reconcile(&toks, 600, 0, 2, &cfg, 11);
    assert_eq!(r.retract, 11);
    assert_eq!(r.carry_ids, Vec::<i32>::new());
    // warmed up: "hello" is carried (5 characters), 11 - 5 = 6 retracted
    let r = reconcile(&toks, 600, 8000, 3, &cfg, 11);
    assert_eq!(r.carry_ids, vec![1]);
    assert_eq!(r.retract, 6);
}

#[test]
fn degenerate_answers_are_treated_as_no_tokens() {
    let cfg = StreamConfig::new(4000, 2, 2, 16000).unwrap();
    let toks = vec![tok(9, "_", 0), tok(1, "hello", 0), tok(9, "_", 600)];
    // a segment end of zero: no time ratio can be derived
    let r = reconcile(&toks, 0, 8000, 3, &cfg, 5);
    assert_eq!(r.retract, 0);
    assert_eq!(r.carry_ids, Vec::<i32>::new());
    // only the two boundary tokens
    let r = reconcile(&vec![tok(9, "_", 0), tok(9, "_", 600)], 600, 8000, 3, &cfg, 5);
    assert_eq!(r.retract, 0);
    assert_eq!(r.carry_ids, Vec::<i32>::new());
    // no answer at all (the first iteration)
    let r = reconcile(&Vec::new(), 600, 8000, 3, &cfg, 5);
    assert_eq!(r.retract, 0);
    assert_eq!(r.carry_ids, Vec::<i32>::new());
}

#[test]
fn retraction_clamps_at_zero() {
    let cfg = StreamConfig::new(4000, 2, 2, 16000).unwrap();
    // carried text longer than what was displayed: clamped, no underflow
    let toks = vec![tok(9, "_", 0), tok(1, "hello", 0), tok(9, "_", 600)];
    let r = reconcile(&toks, 600, 8000, 3, &cfg, 3);
    assert_eq!(r.carry_ids, vec![1]);
    assert_eq!(r.retract, 0);
}
