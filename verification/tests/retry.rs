use holo_auth::retry::RetryController;
use holo_auth::retry::RetryDecision;

#[test]
fn backoff_doubles_from_one_second() {
    // Five consecutive failures cost sleeps of exactly 1, 2, 4, 8, 16
    // seconds, and the operation has then run five times; the sixth,
    // successful run ends the loop with no further sleep.
    let mut controller = RetryController::new(None);
    let mut sleeps: Vec<u64> = Vec::new();
    let mut attempts: u32 = 0;
    loop {
        let succeeded = attempts == 5;
        attempts += 1;
        match controller.on_result(succeeded) {
            RetryDecision::Done => break,
            RetryDecision::SleepThenRetry { sleep_secs } => sleeps.push(sleep_secs),
            RetryDecision::Cancelled => panic!("an unbounded run is never cancelled"),
        }
    }
    assert_eq!(sleeps, vec![1, 2, 4, 8, 16]);
    assert_eq!(attempts, 6);
}

#[test]
fn success_ends_the_loop_at_once() {
    let mut controller = RetryController::new(None);
    assert!(matches!(controller.on_result(true), RetryDecision::Done));
}

#[test]
fn backoff_saturates_once_it_leaves_u64() {
    // The doubling is exact up to 2^63 seconds and then saturates.
    let mut controller = RetryController::new(None);
    let mut last_sleep: u64 = 0;
    for _ in 0..70 {
        match controller.on_result(false) {
            RetryDecision::SleepThenRetry { sleep_secs } => last_sleep = sleep_secs,
            _ => panic!("an unbounded run always sleeps on failure"),
        }
    }
    assert_eq!(last_sleep, u64::MAX);
}

#[test]
fn failure_bound_cancels_instead_of_sleeping() {
    let mut controller = RetryController::new(Some(2));
    assert!(matches!(
        controller.on_result(false),
        RetryDecision::SleepThenRetry { sleep_secs: 1 }
    ));
    assert!(matches!(controller.on_result(false), RetryDecision::Cancelled));
}
