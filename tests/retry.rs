use netrun::{Attempt, Retry, RetryError, EXCEEDED_MESSAGE};

/// Feeds `outcomes` to a run of `retry` until it decides; returns the verdict
/// and the number of attempts it took.
fn drive<T, E>(retry: &Retry, outcomes: Vec<Attempt<T, E>>) -> (Result<T, RetryError<E>>, usize) {
    let mut run = retry.start();
    let mut made = 0;
    for outcome in outcomes {
        made += 1;
        if let Some(verdict) = run.record(outcome) {
            return (verdict, made);
        }
    }
    panic!("the run did not decide");
}

fn text_of<E: ToString>(err: RetryError<E>) -> String {
    match err {
        RetryError::Failed(e) => e.to_string(),
        RetryError::Exceeded => EXCEEDED_MESSAGE.to_string(),
    }
}

#[test]
fn test_retry_failure() {
    let refused = || Attempt::<(), String>::Failed("Connection refused (os error 61)".to_string());
    let (result, made) = drive(&Retry::times(5), (0..5).map(|_| refused()).collect());

    assert_eq!(made, 5);
    assert_eq!("Connection refused (os error 61)".to_string(), text_of(result.err().unwrap()));
}

#[test]
fn test_retry_timeout() {
    let retry = Retry::times(5).timeout(100);
    assert_eq!(retry.timeout_ms(), 100);
    let (result, made) = drive(&retry, (0..5).map(|_| Attempt::<(), String>::TimedOut).collect());

    assert_eq!(made, 5);
    assert_eq!("Retry exceeded".to_string(), text_of(result.err().unwrap()));
}

#[test]
fn test_retry_success() {
    let retry = Retry::times(5).timeout(100);
    let (result, made) = drive(&retry, vec![Attempt::<u32, String>::Succeeded(10)]);

    assert_eq!(made, 1);
    assert_eq!(10, result.ok().unwrap());
}

#[test]
fn defaults_are_three_attempts_of_half_a_second() {
    let retry = Retry::new();
    assert_eq!(retry.attempts(), 3);
    assert_eq!(retry.timeout_ms(), 500);
    let retry = Retry::times(7);
    assert_eq!(retry.attempts(), 7);
    assert_eq!(retry.timeout_ms(), 500);
}

#[test]
fn success_after_failures_is_returned() {
    let outcomes = vec![
        Attempt::Failed("no".to_string()),
        Attempt::TimedOut,
        Attempt::Succeeded(4u8),
    ];
    let (result, made) = drive(&Retry::times(3), outcomes);
    assert_eq!(made, 3);
    assert_eq!(result.ok(), Some(4));
}

#[test]
fn last_attempt_decides_between_error_and_exceeded() {
    let (result, _) = drive(&Retry::times(2), vec![Attempt::<(), &str>::TimedOut, Attempt::Failed("late")]);
    assert!(matches!(result, Err(RetryError::Failed("late"))));

    let (result, _) = drive(&Retry::times(2), vec![Attempt::<(), &str>::Failed("early"), Attempt::TimedOut]);
    let err = result.err().unwrap();
    assert!(err.is_exceeded());
}

#[test]
fn single_attempt_budget_decides_at_once() {
    let mut run = Retry::times(1).start();
    assert_eq!(run.attempts_left(), 1);
    let verdict = run.record(Attempt::<(), &str>::Failed("only"));
    assert!(matches!(verdict, Some(Err(RetryError::Failed("only")))));
    assert_eq!(run.attempts_left(), 0);
}
