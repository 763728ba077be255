//! The upper-bound wait directive: a condition must become true within the
//! bound, polling every interval.

use vstd::prelude::*;
use vstd::string::StringExecFns;

use crate::backend::{
    exhausted, fail_outcome, lemma_backend_result, result_model, Backend, BackendModel,
    DirectiveModel,
};
use crate::clock::{clock_now, nanos_since, sleep_for};
use crate::decimal::{decimal_of, decimal_string};
use crate::error::Timeout;
use crate::span::Span;
use crate::step::until_step;

verus! {

/// The message an upper-bound wait fails with, before the configured
/// description is appended: the condition was still false when `elapsed`
/// nanoseconds had passed.
pub open spec fn most_timeout_message(elapsed_nanos: u64) -> Seq<char> {
    "Condition not satisfied after "@ + decimal_of(elapsed_nanos as nat) + "ns."@
}

/// How one run of [`MostWait::until`] relates its polls to its outcome.
/// `t` is a history of the run: one entry per poll, the condition's
/// outcome paired with an elapsed-time reading consistent with the
/// decision taken. Every poll but the last decided to sleep and poll
/// again; the last poll decided the outcome — success leaves the backend
/// untouched, and a timeout records the failure, which only the return
/// strategy survives to observe.
pub open spec fn until_history<F: Fn() -> bool>(
    f: F,
    t: Seq<(bool, u64)>,
    pre: BackendModel,
    post: BackendModel,
    duration_nanos: u64,
) -> bool {
    &&& t.len() >= 1
    &&& (forall|i: int| 0 <= i < t.len() ==> call_ensures(f, (), t[i].0))
    &&& (forall|i: int|
        0 <= i < t.len() - 1 ==> until_step(t[i].0, t[i].1, duration_nanos) is Sleep)
    &&& ({
        ||| (until_step(t.last().0, t.last().1, duration_nanos) is Succeed && post == pre)
        ||| (until_step(t.last().0, t.last().1, duration_nanos) is Fail
            && pre.returns_on_failure && post == fail_outcome(
            pre,
            most_timeout_message(t.last().1),
        ))
    })
}

/// Law: a condition that can only poll true is satisfied by the very first
/// poll — the history holds that one poll and nothing else, so the wait
/// never slept, and the recorded outcome is left untouched.
pub proof fn lemma_until_immediate_on_true<F: Fn() -> bool>(
    f: F,
    t: Seq<(bool, u64)>,
    pre: BackendModel,
    post: BackendModel,
    duration_nanos: u64,
)
    requires
        until_history(f, t, pre, post, duration_nanos),
        forall|b: bool| call_ensures(f, (), b) ==> b,
    ensures
        t.len() == 1,
        post == pre,
{
    assert(t[0].0);
    if t.len() > 1 {
        assert(until_step(t[0].0, t[0].1, duration_nanos) is Sleep);
        assert(false);
    }
}

/// Law: a condition that can only poll false is never satisfied — the wait
/// fails, its last elapsed reading lies beyond the bound, that reading is
/// the one the message names, and only the return strategy observes the
/// call at all.
pub proof fn lemma_until_timeout_on_false<F: Fn() -> bool>(
    f: F,
    t: Seq<(bool, u64)>,
    pre: BackendModel,
    post: BackendModel,
    duration_nanos: u64,
)
    requires
        until_history(f, t, pre, post, duration_nanos),
        forall|b: bool| call_ensures(f, (), b) ==> !b,
    ensures
        t.last().1 > duration_nanos,
        pre.returns_on_failure,
        post == fail_outcome(pre, most_timeout_message(t.last().1)),
{
    assert(!t.last().0);
}

/// A wait that requires its condition to become true within `duration` of
/// the call to a waiting method.
#[derive(Debug)]
pub struct MostWait {
    duration: Span,
    backend: Backend,
}

impl View for MostWait {
    type V = DirectiveModel;

    closed spec fn view(&self) -> DirectiveModel {
        DirectiveModel { duration: self.duration, backend: self.backend@ }
    }
}

/// An upper-bound wait with the default configuration.
pub fn at_most(duration: Span) -> (r: MostWait)
    ensures
        r@ == (DirectiveModel { duration, backend: BackendModel::initial() }),
{
    MostWait { duration, backend: Backend::default() }
}

/// An upper-bound wait that takes over an already configured backend.
pub fn at_most_backend(duration: Span, backend: Backend) -> (r: MostWait)
    ensures
        r@ == (DirectiveModel { duration, backend: backend@ }),
{
    MostWait { duration, backend }
}

impl MostWait {
    /// Sets the sleep time between polls. Must be called before the waiting
    /// method.
    pub fn poll_interval(&mut self, interval: Span)
        ensures
            final(self)@ == (DirectiveModel {
                backend: (BackendModel { interval, ..old(self)@.backend }),
                ..old(self)@
            }),
    {
        self.backend.set_interval(interval);
    }

    /// Sets the annotation appended to failure messages. Must be called
    /// before the waiting method.
    pub fn describe(&mut self, desc: &str)
        ensures
            final(self)@ == (DirectiveModel {
                backend: (BackendModel { description: Some(desc@), ..old(self)@.backend }),
                ..old(self)@
            }),
    {
        self.backend.set_description(desc);
    }

    /// The last recorded outcome — meaningful only under the return
    /// strategy, where a failed wait stores a `Timeout` here.
    pub fn result(&self) -> (r: Result<(), Timeout>)
        ensures
            result_model(r) == self@.backend.result,
    {
        proof {
            lemma_backend_result(&self.backend);
        }
        match &self.backend.result {
            Ok(()) => Ok(()),
            Err(t) => Err(t.clone()),
        }
    }

    /// Polls `f` until it is true or the bound is exceeded, sleeping one
    /// interval between polls. The first poll happens immediately; the
    /// elapsed time is checked only after a false poll, so a condition that
    /// is true at once succeeds without sleeping, whatever the bound.
    ///
    /// On success the recorded outcome is left untouched. On timeout the
    /// backend reports failure: under the panic strategy the calling
    /// context is aborted; under the return strategy a `Timeout` whose
    /// message names an elapsed time beyond the bound is recorded and the
    /// call returns. So a call that returns has either observed the
    /// condition true, or recorded such a `Timeout` under the return
    /// strategy.
    pub fn until<F: Fn() -> bool>(&mut self, f: F) -> (r: &Self)
        requires
            call_requires(f, ()),
        ensures
            final(self)@.duration == old(self)@.duration,
            final(self)@.backend.same_config(old(self)@.backend),
            exists|t: Seq<(bool, u64)>|
                #[trigger] until_history(
                    f,
                    t,
                    old(self)@.backend,
                    final(self)@.backend,
                    old(self)@.duration.nanos,
                ),
            *r == *final(self),
    {
        let ghost orig = self@;
        let ghost mut trace: Seq<(bool, u64)> = Seq::empty();
        let start = clock_now();
        let mut budget: u64 = u64::MAX;
        loop
            invariant_except_break
                self@ == orig,
                forall|i: int|
                    0 <= i < trace.len() ==> until_step(
                        trace[i].0,
                        trace[i].1,
                        orig.duration.nanos,
                    ) is Sleep,
            invariant
                call_requires(f, ()),
                forall|i: int| 0 <= i < trace.len() ==> call_ensures(f, (), trace[i].0),
            ensures
                self@.duration == orig.duration,
                self@.backend.same_config(orig.backend),
                exists|t: Seq<(bool, u64)>|
                    #[trigger] until_history(f, t, orig.backend, self@.backend, orig.duration.nanos),
            decreases budget,
        {
            if f() {
                proof {
                    trace = trace.push((true, 0));
                    assert(until_history(f, trace, orig.backend, self@.backend, orig.duration.nanos));
                }
                break ;
            }
            if self.is_timeout_or_wait(&start) {
                proof {
                    let e = choose|e: u64|
                        until_step(false, e, orig.duration.nanos) is Fail && self@.backend
                            == fail_outcome(orig.backend, most_timeout_message(e));
                    trace = trace.push((false, e));
                    assert(until_history(f, trace, orig.backend, self@.backend, orig.duration.nanos));
                }
                break ;
            }
            proof {
                trace = trace.push((false, 0));
            }
            if budget == 0 {
                // Each poll costs wall-clock time, so this bound outlasts
                // any reachable execution; it exists for the termination
                // measure above.
                let gone = exhausted();
                proof {
                    use_type_invariant(&gone);
                }
                break ;
            }
            budget = budget - 1;
        }
        self
    }

    /// One post-poll check of the polling loop: reads the elapsed time,
    /// reports failure and answers true when it exceeds the bound, and
    /// otherwise sleeps one interval and answers false.
    fn is_timeout_or_wait(&mut self, now: &std::time::Instant) -> (r: bool)
        ensures
            !r ==> final(self)@ == old(self)@,
            r ==> old(self)@.backend.returns_on_failure && final(self)@.duration == old(
                self,
            )@.duration && (exists|e: u64|
                until_step(false, e, old(self)@.duration.nanos) is Fail && final(self)@.backend
                    == fail_outcome(old(self)@.backend, most_timeout_message(e))),
    {
        let elapsed = nanos_since(now);
        if elapsed > self.duration.nanos {
            let msg = String::from_str("Condition not satisfied after ").concat(
                decimal_string(elapsed).as_str(),
            ).concat("ns.");
            self.backend.fail(msg.as_str());
            proof {
                assert(until_step(false, elapsed, old(self)@.duration.nanos) is Fail);
                assert(final(self)@.backend == fail_outcome(
                    old(self)@.backend,
                    most_timeout_message(elapsed),
                ));
            }
            return true;
        }
        sleep_for(self.backend.interval);
        false
    }
}

} // verus!
