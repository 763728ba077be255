use std::time::{Duration, Instant};

use awaitility::{
    at_least_backend, at_most_backend, decide_always, decide_once, decide_until, Backend,
    PollStep, Span, DEFAULT_INTERVAL_NANOS,
};

const MILLI: u64 = 1_000_000;

/// A counter that emulates a background task: it reads 5 until `delay` has
/// passed since creation, and 15 afterwards.
fn delayed_counter(delay: Duration) -> impl Fn() -> usize {
    let born = Instant::now();
    move || if born.elapsed() >= delay { 15 } else { 5 }
}

/// The decimal elapsed reading inside a failure message, given the words
/// around it.
fn parse_elapsed(message: &str, prefix: &str, suffix: &str) -> u64 {
    let rest = message
        .strip_prefix(prefix)
        .unwrap_or_else(|| panic!("unexpected message: {message}"));
    let digits = rest
        .strip_suffix(suffix)
        .unwrap_or_else(|| panic!("unexpected message: {message}"));
    digits
        .parse()
        .unwrap_or_else(|_| panic!("unexpected digits in: {message}"))
}

#[test]
fn create_at_most() {
    let aw = awaitility::new().poll_interval(Span::from_millis(50));
    aw.at_most(Span::from_millis(10)).until(|| 2 > 1);
}

#[test]
fn create_at_least() {
    let aw = awaitility::new().poll_interval(Span::from_millis(50));
    aw.at_least(Span::from_millis(10)).always(|| 2 > 1);
}

#[test]
fn set_return_test() {
    let res = awaitility::new()
        .set_return()
        .at_most(Span::from_millis(10))
        .until(|| 3 > 2)
        .result();
    assert!(res.is_ok());
}

#[test]
#[should_panic]
fn fail_test() {
    let mut backend = Backend::default();
    backend.fail("");
}

#[test]
#[should_panic]
fn at_most_panic() {
    awaitility::at_most(Span::from_millis(30)).until(|| 1 > 2);
}

#[test]
fn span_conversions() {
    assert_eq!(Span::from_millis(1).nanos, 1_000_000);
    assert_eq!(Span::from_millis(50).nanos, 50_000_000);
    assert_eq!(Span::from_millis(0).nanos, 0);
    assert_eq!(Span::from_millis(u64::MAX).nanos, u64::MAX);
    assert_eq!(Span::from_nanos(7).nanos, 7);
    assert_eq!(DEFAULT_INTERVAL_NANOS, 50_000_000);
}

#[test]
fn until_true_returns_immediately() {
    let watch = Instant::now();
    awaitility::at_most(Span::from_millis(500)).until(|| true);
    // An immediately-true condition is never followed by a sleep, so the
    // call is far quicker than one 50ms default interval.
    assert!(watch.elapsed() < Duration::from_millis(40));
}

#[test]
fn until_false_fails_within_one_interval_slack() {
    let watch = Instant::now();
    let mut wait = awaitility::new().set_return().at_most(Span::from_millis(30));
    wait.until(|| false);
    let spent = watch.elapsed();
    let err = wait.result().expect_err("a never-true condition must time out");
    // The 30ms bound must be spent, plus at most one 50ms interval and
    // scheduling slack.
    assert!(spent >= Duration::from_millis(30), "returned too early: {spent:?}");
    assert!(spent < Duration::from_millis(300), "returned too late: {spent:?}");
    let reported = parse_elapsed(
        &err.display_string(),
        "TimeoutError: Condition not satisfied after ",
        "ns. ",
    );
    assert!(reported > 30 * MILLI);
}

#[test]
fn until_succeeds_once_condition_turns_true() {
    let counter = delayed_counter(Duration::from_millis(20));
    let watch = Instant::now();
    let mut wait = awaitility::new().set_return().at_most(Span::from_millis(1000));
    wait.poll_interval(Span::from_millis(10));
    wait.until(|| counter() > 10);
    let spent = watch.elapsed();
    assert!(wait.result().is_ok());
    assert!(spent >= Duration::from_millis(19), "succeeded before the condition: {spent:?}");
    assert!(spent < Duration::from_millis(500), "polled for too long: {spent:?}");
}

#[test]
fn always_true_succeeds_after_bound() {
    let watch = Instant::now();
    awaitility::at_least(Span::from_millis(100)).always(|| true);
    // Success comes only once the bound has elapsed, with at most one
    // interval of over-run.
    let spent = watch.elapsed();
    assert!(spent >= Duration::from_millis(100), "returned before the bound: {spent:?}");
    assert!(spent < Duration::from_millis(400), "overran too far: {spent:?}");
}

#[test]
fn always_fails_when_condition_turns_false() {
    let turns_false_at = Duration::from_millis(30);
    let gate = Instant::now();
    let mut backend = Backend::default();
    backend.set_return();
    let mut wait = at_least_backend(Span::from_millis(200), backend);
    wait.poll_interval(Span::from_millis(10));
    let watch = Instant::now();
    wait.always(|| gate.elapsed() < turns_false_at);
    let spent = watch.elapsed();
    let err = wait.result().expect_err("a condition that turns false must fail");
    assert!(spent < Duration::from_millis(190), "failure came only near the bound: {spent:?}");
    let reported = parse_elapsed(
        &err.display_string(),
        "TimeoutError: Condition failed before duration ",
        "ns elapsed. ",
    );
    // The reported elapsed time sits between the moment the condition
    // turned false and one poll interval (plus slack) later, and within
    // the bound.
    assert!(reported > 20 * MILLI, "failed too early: {reported}ns");
    assert!(reported < 150 * MILLI, "failed too late: {reported}ns");
}

#[test]
fn once_behaves_like_until() {
    // Identical (duration, condition, interval) triples: both succeed on an
    // immediately-true condition without touching the recorded outcome,
    // and both fail a never-true condition once the bound is spent.
    let mut b1 = Backend::default();
    b1.set_return();
    let mut w1 = at_least_backend(Span::from_millis(30), b1);
    w1.once(|| true);
    assert!(w1.result().is_ok());

    let mut b2 = Backend::default();
    b2.set_return();
    let mut w2 = at_most_backend(Span::from_millis(30), b2);
    w2.until(|| true);
    assert!(w2.result().is_ok());

    let mut b3 = Backend::default();
    b3.set_return();
    let mut w3 = at_least_backend(Span::from_millis(30), b3);
    w3.once(|| false);
    assert!(w3.result().is_err());

    let mut b4 = Backend::default();
    b4.set_return();
    let mut w4 = at_most_backend(Span::from_millis(30), b4);
    w4.until(|| false);
    assert!(w4.result().is_err());
}

#[test]
fn deciders_agree_until_the_deadline() {
    // Within the bound the single-shot and upper-bound deciders agree ...
    assert_eq!(decide_once(true, 5, 10), PollStep::Succeed);
    assert_eq!(decide_until(true, 5, 10), PollStep::Succeed);
    assert_eq!(decide_once(false, 5, 10), PollStep::Sleep);
    assert_eq!(decide_until(false, 5, 10), PollStep::Sleep);
    assert_eq!(decide_once(false, 15, 10), PollStep::Fail);
    assert_eq!(decide_until(false, 15, 10), PollStep::Fail);
    // ... and past it they part ways on a true condition: the single-shot
    // wait consults the deadline first.
    assert_eq!(decide_once(true, 15, 10), PollStep::Fail);
    assert_eq!(decide_until(true, 15, 10), PollStep::Succeed);
}

#[test]
fn always_decider_never_fails_on_true() {
    assert_eq!(decide_always(true, 0, 10), PollStep::Sleep);
    assert_eq!(decide_always(true, 10, 10), PollStep::Sleep);
    assert_eq!(decide_always(true, 11, 10), PollStep::Succeed);
    assert_eq!(decide_always(false, 10, 10), PollStep::Fail);
    assert_eq!(decide_always(false, 11, 10), PollStep::Succeed);
}

#[test]
fn facade_mints_independent_snapshots() {
    // The first directive is minted under the return strategy with the
    // default 50ms interval; configuring the facade's interval to 300ms
    // afterwards must not reach it, and must reach the directive minted
    // next.
    let facade = awaitility::new().set_return();
    let mut early = facade.at_most(Span::from_millis(30));
    let facade = facade.poll_interval(Span::from_millis(300));
    let mut late = facade.at_most(Span::from_millis(30));

    let watch = Instant::now();
    early.until(|| false);
    let early_spent = watch.elapsed();
    assert!(early.result().is_err());
    assert!(early_spent >= Duration::from_millis(30));
    assert!(early_spent < Duration::from_millis(250), "old snapshot was mutated: {early_spent:?}");

    let watch = Instant::now();
    late.until(|| false);
    let late_spent = watch.elapsed();
    assert!(late.result().is_err());
    assert!(late_spent >= Duration::from_millis(290), "new snapshot missed the interval: {late_spent:?}");
}

#[test]
fn counter_stays_low_through_window() {
    // A counter that starts at 5 and jumps to 15 only after 150ms stays
    // below 10 throughout a 100ms lower-bound window.
    let counter = delayed_counter(Duration::from_millis(150));
    let mut backend = Backend::default();
    backend.set_return();
    let mut wait = at_least_backend(Span::from_millis(100), backend);
    wait.always(|| counter() < 10);
    assert!(wait.result().is_ok());
}

#[test]
fn counter_rising_at_once_fails_window() {
    // The same window fails when the counter jumps without delay.
    let counter = delayed_counter(Duration::from_millis(0));
    let mut backend = Backend::default();
    backend.set_return();
    let mut wait = at_least_backend(Span::from_millis(100), backend);
    wait.always(|| counter() < 10);
    assert!(wait.result().is_err());
}

#[test]
fn failure_message_composition() {
    let mut backend = Backend::default();
    backend.set_return();
    backend.set_description("the sky stayed grey");
    backend.fail("boom");
    let err = backend.result.expect_err("fail under the return strategy records an error");
    assert_eq!(err.display_string(), "TimeoutError: boom the sky stayed grey");
}

#[test]
fn failure_message_without_description() {
    let mut backend = Backend::default();
    backend.set_return();
    backend.fail("boom");
    let err = backend.result.expect_err("fail under the return strategy records an error");
    assert_eq!(err.display_string(), "TimeoutError: boom ");
}

#[test]
fn describe_reaches_the_message() {
    let mut wait = awaitility::new().set_return().at_most(Span::from_millis(0));
    wait.describe("waiting for the tide");
    wait.until(|| false);
    let err = wait.result().expect_err("a never-true condition must time out");
    let shown = err.display_string();
    assert!(
        shown.ends_with(" waiting for the tide"),
        "description missing from: {shown}"
    );
}

#[test]
fn zero_duration_still_allows_one_check() {
    // With a zero bound, a condition that is true on the very first poll
    // still succeeds: the elapsed check only follows a false poll.
    let mut wait = awaitility::new().set_return().at_most(Span::from_millis(0));
    wait.until(|| true);
    assert!(wait.result().is_ok());
}

#[test]
fn timeout_carries_its_message() {
    let err = awaitility::Timeout::new(String::from("late"));
    assert_eq!(err.display_string(), "TimeoutError: late");
    let copy = err.clone();
    assert_eq!(copy.display_string(), "TimeoutError: late");
}
