use whisper_stream::sched::schedule_wait;

#[test]
fn sleeps_the_remainder_or_reports_overrun() {
    assert_eq!(schedule_wait(4000, 1500), (2500, false));
    assert_eq!(schedule_wait(4000, 0), (4000, false));
    assert_eq!(schedule_wait(4000, 3999), (1, false));
    assert_eq!(schedule_wait(4000, 4000), (0, true));
    assert_eq!(schedule_wait(4000, 9001), (0, true));
}
