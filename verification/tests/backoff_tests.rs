use udp_sink::backoff::Backoff;
use udp_sink::sink::fresh_backoff;

#[test]
fn default_progression_starts_near_half_a_second() {
    let mut backoff = fresh_backoff();
    // start 2 ms, factor 250: the first delay is 500 ms, and the next step
    // already hits the one-minute ceiling.
    assert_eq!(backoff.next_delay_millis(), 500);
    assert_eq!(backoff.next_delay_millis(), 60_000);
    assert_eq!(backoff.next_delay_millis(), 60_000);
}

#[test]
fn custom_progression_doubles_up_to_ceiling() {
    let mut backoff = Backoff::new(100, 2, 1_000);
    assert_eq!(backoff.next_delay_millis(), 200);
    assert_eq!(backoff.next_delay_millis(), 400);
    assert_eq!(backoff.next_delay_millis(), 800);
    assert_eq!(backoff.next_delay_millis(), 1_000);
    assert_eq!(backoff.next_delay_millis(), 1_000);
}

#[test]
fn delays_never_decrease_and_never_exceed_ceiling() {
    let mut backoff = Backoff::new(3, 7, 5_000);
    let mut previous: u64 = 0;
    for _ in 0..30 {
        let delay = backoff.next_delay_millis();
        assert!(delay >= previous);
        assert!(delay <= 5_000);
        previous = delay;
    }
    assert_eq!(previous, 5_000);
}

#[test]
fn factor_of_one_holds_the_delay_steady() {
    let mut backoff = Backoff::new(250, 1, 60_000);
    assert_eq!(backoff.next_delay_millis(), 250);
    assert_eq!(backoff.next_delay_millis(), 250);
}

#[test]
fn huge_cursor_saturates_at_ceiling() {
    let mut backoff = Backoff::new(u64::MAX, u64::MAX, 60_000);
    assert_eq!(backoff.next_delay_millis(), 60_000);
    assert_eq!(backoff.next_delay_millis(), 60_000);
}
