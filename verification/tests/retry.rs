use feynman_relay::retry::{default_policy, RetryDecision, RetryPolicy, RetryState};

#[test]
fn default_policy_values() {
    let p = default_policy();
    assert_eq!(p.max_attempts, 3);
    assert_eq!(p.backoff_ms, 1000);
}

#[test]
fn three_failures_give_up_with_last_cause() {
    let mut st = RetryState::new(default_policy());

    assert!(st.can_attempt());
    match st.on_failure(String::from("dns error")) {
        RetryDecision::RetryAfter(ms) => assert_eq!(ms, 1000),
        _ => panic!("the first failure must be retried"),
    }

    assert!(st.can_attempt());
    match st.on_failure(String::from("timeout")) {
        RetryDecision::RetryAfter(ms) => assert_eq!(ms, 1000),
        _ => panic!("the second failure must be retried"),
    }

    assert!(st.can_attempt());
    match st.on_failure(String::from("connection refused")) {
        RetryDecision::GiveUp(e) => {
            assert_eq!(e.attempts, 3);
            assert_eq!(e.cause, "connection refused");
        }
        _ => panic!("the third failure must exhaust the budget"),
    }
    assert!(!st.can_attempt());
}

#[test]
fn success_on_second_attempt_needs_no_error() {
    let mut st = RetryState::new(default_policy());
    match st.on_failure(String::from("handshake failed")) {
        RetryDecision::RetryAfter(_) => {}
        _ => panic!("one failure out of three must not give up"),
    }
    // The dial may try again; a success here ends the loop with no error
    // ever surfaced.
    assert!(st.can_attempt());
    assert_eq!(st.attempts_made, 1);
}

#[test]
fn single_attempt_policy_gives_up_at_once() {
    let mut st = RetryState::new(RetryPolicy { max_attempts: 1, backoff_ms: 50 });
    match st.on_failure(String::from("boom")) {
        RetryDecision::GiveUp(e) => {
            assert_eq!(e.attempts, 1);
            assert_eq!(e.cause, "boom");
        }
        _ => panic!("a one-attempt policy must give up on the first failure"),
    }
}
