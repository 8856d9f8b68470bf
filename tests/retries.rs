use zap::retry::base_retry_delay_ms;
use zap::{calculate_retry_delay, retry_delay_ms, stream_failure_message, FailureMap, RetryAction, RetryState};

#[test]
fn base_delay_doubles_up_to_the_cap() {
    let got: Vec<u64> = (0..8).map(base_retry_delay_ms).collect();
    assert_eq!(got, vec![1000, 2000, 4000, 8000, 16000, 30000, 30000, 30000]);
    assert_eq!(base_retry_delay_ms(u32::MAX), 30000);
}

#[test]
fn jitter_window() {
    assert_eq!(retry_delay_ms(0, 0), 900);
    assert_eq!(retry_delay_ms(0, 199), 1099);
    assert_eq!(retry_delay_ms(0, 200), 900);
    assert_eq!(retry_delay_ms(3, 1), 8000 - 800 + 1);
    assert_eq!(retry_delay_ms(9, 5999), 30000 - 3000 + 5999);
}

#[test]
fn delays_grow_within_jitter() {
    let mut last_base = 0;
    for k in 0..12u32 {
        let base = base_retry_delay_ms(k);
        assert!(base >= last_base);
        assert!(base <= 30000);
        last_base = base;
        for _ in 0..50 {
            let d = calculate_retry_delay(k);
            assert!(10 * d >= 9 * base && 10 * d <= 11 * base, "delay {} for base {}", d, base);
        }
        for draw in [0u64, 1, 77, u64::MAX] {
            let d = retry_delay_ms(k, draw);
            assert!(d * 5 >= base * 4 && d * 5 <= base * 6);
        }
    }
}

/// Runs a stream whose attempts turn out as `outcomes` and returns whether it
/// succeeded and how many attempts it made.
fn run(retries: u32, outcomes: &[bool]) -> (bool, usize) {
    let mut state = RetryState::new(retries);
    let mut made = 0;
    for &ok in outcomes {
        assert!(state.can_attempt());
        made += 1;
        if ok {
            return (true, made);
        }
        match state.on_failure_with(0) {
            RetryAction::GiveUp => return (false, made),
            RetryAction::Wait(ms) => assert_eq!(ms, retry_delay_ms(made as u32 - 1, 0)),
        }
    }
    panic!("outcomes ran out");
}

#[test]
fn transient_failures_are_recovered() {
    assert_eq!(run(3, &[false, false, true]), (true, 3));
    assert_eq!(run(3, &[false, false, false, true]), (true, 4));
    assert_eq!(run(0, &[true]), (true, 1));
}

#[test]
fn exhausted_retries_fail_the_stream() {
    assert_eq!(run(2, &[false, false, false, true]), (false, 3));
    assert_eq!(run(0, &[false, true]), (false, 1));
    let mut state = RetryState::new(1);
    assert_eq!(state.retries(), 1);
    assert!(matches!(state.on_failure(), RetryAction::Wait(ms) if (900..=1100).contains(&ms)));
    assert_eq!(state.on_failure(), RetryAction::GiveUp);
    assert_eq!(state.failures(), 2);
    assert!(!state.can_attempt());
}

#[test]
fn stream_seven_recovers_after_one_failure() {
    let mut map = FailureMap::new(20);
    for stream in 0..20 {
        let outcomes: &[bool] = if stream == 7 { &[false, true] } else { &[true] };
        let (ok, _) = run(3, outcomes);
        if !ok {
            map.mark_failed(stream);
        }
    }
    assert!(zap::transfer_outcome(&map).is_ok());
}

#[test]
fn stream_three_failing_every_attempt_fails_the_transfer() {
    let mut map = FailureMap::new(20);
    for stream in 0..20 {
        let outcomes: &[bool] = if stream == 3 { &[false, false, false] } else { &[true] };
        let (ok, _) = run(2, outcomes);
        if !ok {
            map.mark_failed(stream);
        }
    }
    assert_eq!(map.failed_streams(), vec![3]);
    assert!(zap::transfer_outcome(&map).is_err());
    let msg = stream_failure_message(3, 2, "connection reset");
    assert_eq!(msg, "Stream 3 failed after 2 retries: connection reset");
}

