//! A condition-polling engine for test suites: assert that an eventually
//! consistent condition becomes true within a bound (`at_most`), or stays
//! true for a duration (`at_least`), without hand-written sleep/retry
//! loops.
//!
//! A wait directive polls a caller-supplied condition every interval
//! (50ms unless configured) until its bound decides the outcome. A failed
//! wait aborts the calling context by default; after `set_return` it
//! records a `Timeout` instead, read back through
//! `result`.

use vstd::prelude::*;

mod awaitility;
mod backend;
mod clock;
mod decimal;
mod error;
mod least;
mod most;
mod span;
mod step;

pub use awaitility::Awaitility;
pub use backend::{
    fail_outcome, result_model, with_description, Backend, BackendModel, DirectiveModel,
};
pub use decimal::decimal_of;
pub use error::Timeout;
pub use least::{
    always_history, at_least_backend, least_failure_message, lemma_always_fails_only_within_bound,
    lemma_always_survives_on_true, lemma_once_immediate_on_true, once_history, LeastWait,
};
pub use most::{
    at_most_backend, lemma_until_immediate_on_true, lemma_until_timeout_on_false,
    most_timeout_message, until_history, MostWait,
};
pub use span::Span;
pub use step::{
    always_step, decide_always, decide_once, decide_until, lemma_always_on_true,
    lemma_once_agrees_with_until, lemma_until_on_false, lemma_until_on_true, once_step,
    until_step, PollStep,
};

verus! {

/// Nanoseconds slept between two polls unless the caller configures
/// otherwise.
pub const DEFAULT_INTERVAL_NANOS: u64 = 50_000_000;

/// An upper-bound wait with the default configuration: the condition must
/// become true within `duration`.
pub fn at_most(duration: Span) -> (r: MostWait)
    ensures
        r@ == (DirectiveModel { duration, backend: BackendModel::initial() }),
{
    most::at_most(duration)
}

/// A lower-bound wait with the default configuration: the condition must
/// keep holding until `duration` has elapsed.
pub fn at_least(duration: Span) -> (r: LeastWait)
    ensures
        r@ == (DirectiveModel { duration, backend: BackendModel::initial() }),
{
    least::at_least(duration)
}

/// A facade with the default configuration, to be configured once and then
/// asked for any number of directives.
pub fn new() -> (r: Awaitility)
    ensures
        r@ == BackendModel::initial(),
{
    awaitility::new()
}

} // verus!
