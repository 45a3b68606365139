use whisper_stream::transcript::Transcript;

#[test]
fn retract_then_append() {
    let mut t = Transcript::new();
    t.append(&"hello world".chars().collect::<Vec<char>>());
    t.retract(6);
    t.append(&" world2".chars().collect::<Vec<char>>());
    assert_eq!(t.chars_vec(), "hello world2".chars().collect::<Vec<char>>());
    assert_eq!(t.len(), 12);
}

#[test]
fn retract_clamps_to_the_whole_transcript() {
    let mut t = Transcript::new();
    t.append(&"abc".chars().collect::<Vec<char>>());
    t.retract(10);
    assert_eq!(t.len(), 0);
    assert_eq!(t.chars_vec(), Vec::<char>::new());
}
