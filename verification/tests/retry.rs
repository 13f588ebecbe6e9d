use shopify_api::utils::{retry_operation, retry_sync, Operation, Recorded, RetryState, RetryStep};
use std::cell::Cell;

/// An operation that plays back a list of outcomes, shifted by its
/// argument, and counts in `invocations` how often it is invoked.
fn scripted<'a>(
    outcomes: &'a [Result<u32, String>],
    invocations: &'a Cell<usize>,
) -> Recorded<impl Fn(u32) -> Result<u32, String> + 'a, u32, String> {
    Recorded::new(move |offset: u32| {
        let outcome = outcomes[invocations.get()].clone().map(|value| value + offset);
        invocations.set(invocations.get() + 1);
        outcome
    })
}

fn failure(n: u32) -> Result<u32, String> {
    Err(format!("failure {}", n))
}

#[test]
fn operation_that_always_fails_is_invoked_exactly_bound_times() {
    let outcomes: Vec<Result<u32, String>> = (1..=8).map(failure).collect();
    for bound in 1u64..=6 {
        let invocations = Cell::new(0);
        let mut operation = scripted(&outcomes, &invocations);
        let result = retry_operation(bound, &mut operation, 0);
        assert_eq!(invocations.get() as u64, bound);
        assert_eq!(result, Err(format!("failure {}", bound)));
    }
}

#[test]
fn operation_that_succeeds_on_attempt_k_is_invoked_exactly_k_times() {
    for k in 1u32..=5 {
        let mut outcomes: Vec<Result<u32, String>> = (1..k).map(failure).collect();
        outcomes.push(Ok(100 + k));
        outcomes.push(Ok(0));
        outcomes.push(failure(99));
        let invocations = Cell::new(0);
        let mut operation = scripted(&outcomes, &invocations);
        let result = retry_operation(5, &mut operation, 1000);
        assert_eq!(invocations.get(), k as usize);
        assert_eq!(result, Ok(1100 + k));
    }
}

#[test]
fn operation_can_be_retried_again_after_a_run() {
    let outcomes = vec![failure(1), failure(2), failure(3), Ok(4)];
    let invocations = Cell::new(0);
    let mut operation = scripted(&outcomes, &invocations);
    assert_eq!(retry_operation(2, &mut operation, 0), failure(2));
    assert_eq!(invocations.get(), 2);
    assert_eq!(retry_operation(2, &mut operation, 0), Ok(4));
    assert_eq!(invocations.get(), 4);
}

#[test]
fn recorded_function_is_an_operation() {
    let calls = Cell::new(0u32);
    let mut operation = Recorded::new(|limit: u32| {
        calls.set(calls.get() + 1);
        if calls.get() >= limit {
            Ok(calls.get())
        } else {
            Err(calls.get())
        }
    });
    assert_eq!(operation.invoke(3), Err(1));
    assert_eq!(retry_operation(10, &mut operation, 3), Ok(3));
    assert_eq!(calls.get(), 3);
}

#[test]
fn always_failing_operation_runs_to_the_bound() {
    for bound in 1u64..=5 {
        let calls = Cell::new(0u64);
        let result: Result<(), u64> = retry_sync(
            bound,
            |_: &()| {
                calls.set(calls.get() + 1);
                Err(calls.get())
            },
            &(),
        );
        assert_eq!(calls.get(), bound);
        assert_eq!(result, Err(bound));
    }
}

#[test]
fn success_on_a_later_attempt_stops_the_run() {
    let calls = Cell::new(0u64);
    let result: Result<&str, u64> = retry_sync(
        10,
        |succeed_at: &u64| {
            calls.set(calls.get() + 1);
            if calls.get() == *succeed_at {
                Ok("done")
            } else {
                Err(calls.get())
            }
        },
        &3,
    );
    assert_eq!(result, Ok("done"));
    assert_eq!(calls.get(), 3);
}

#[test]
fn success_on_the_first_attempt_is_returned_at_once() {
    let calls = Cell::new(0u64);
    let result: Result<u8, ()> = retry_sync(
        4,
        |value: &u8| {
            calls.set(calls.get() + 1);
            Ok(*value)
        },
        &7,
    );
    assert_eq!(result, Ok(7));
    assert_eq!(calls.get(), 1);
}

#[test]
fn success_on_the_last_attempt_counts() {
    let calls = Cell::new(0u64);
    let result: Result<u64, u64> = retry_sync(
        3,
        |_: &()| {
            calls.set(calls.get() + 1);
            if calls.get() == 3 {
                Ok(30)
            } else {
                Err(calls.get())
            }
        },
        &(),
    );
    assert_eq!(result, Ok(30));
    assert_eq!(calls.get(), 3);
}

#[test]
fn replayed_arguments_reach_every_attempt() {
    let seen = Cell::new(0u32);
    let args = (String::from("test"), 1u8);
    let result: Result<(), String> = retry_sync(
        3,
        |args: &(String, u8)| {
            if args.0 == "test" && args.1 == 1 {
                seen.set(seen.get() + 1);
            }
            Err(String::from("Error"))
        },
        &args,
    );
    assert!(result.is_err());
    assert_eq!(seen.get(), 3);
}

#[test]
fn retry_state_finishes_on_the_last_allowed_failure() {
    let mut state = RetryState::new(2);
    assert_eq!(state.attempts_made(), 0);
    let first: RetryStep<(), &str> = state.record(Err("first"));
    assert!(matches!(first, RetryStep::Again));
    assert_eq!(state.attempts_made(), 1);
    let second: RetryStep<(), &str> = state.record(Err("second"));
    assert!(matches!(second, RetryStep::Finished(Err("second"))));
    assert_eq!(state.attempts_made(), 2);
}

#[test]
fn retry_state_finishes_on_success() {
    let mut state = RetryState::new(5);
    let first: RetryStep<u8, &str> = state.record(Err("no"));
    assert!(matches!(first, RetryStep::Again));
    let second: RetryStep<u8, &str> = state.record(Ok(9));
    assert!(matches!(second, RetryStep::Finished(Ok(9))));
    assert_eq!(state.attempts_made(), 2);
}

#[test]
fn retry_state_with_bound_one_never_asks_again() {
    let mut state = RetryState::new(1);
    let only: RetryStep<(), u8> = state.record(Err(4));
    assert!(matches!(only, RetryStep::Finished(Err(4))));
}
