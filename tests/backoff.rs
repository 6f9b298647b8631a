use node_local_cache::backoff::{backoff_delay_ms, backoff_jitter_ms, MAX_BACKOFF_MS, MAX_RETRIES};

#[test]
fn backoff_doubles_then_caps() {
    assert_eq!(backoff_delay_ms(0), 10);
    assert_eq!(backoff_delay_ms(1), 20);
    assert_eq!(backoff_delay_ms(3), 80);
    assert_eq!(backoff_delay_ms(6), 640);
    assert_eq!(backoff_delay_ms(7), 1000);
    assert_eq!(backoff_delay_ms(MAX_RETRIES), MAX_BACKOFF_MS);
    assert_eq!(backoff_delay_ms(u32::MAX), 1000);
}

#[test]
fn jitter_stays_under_ceiling() {
    for attempt in 0..20u32 {
        for _ in 0..50 {
            assert!(backoff_jitter_ms(attempt) <= backoff_delay_ms(attempt));
        }
    }
    // With a ceiling of 1000 ms some draws differ.
    let draws: Vec<u64> = (0..64).map(|_| backoff_jitter_ms(10)).collect();
    assert!(draws.iter().any(|d| *d != draws[0]));
}
