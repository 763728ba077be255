//! The lower-bound wait directive: a condition must hold on every poll
//! until the bound has elapsed. A single-shot variant waits for the
//! condition to become true once instead.

use vstd::prelude::*;
use vstd::string::StringExecFns;

use crate::backend::{
    exhausted, fail_outcome, lemma_backend_result, result_model, Backend, BackendModel,
    DirectiveModel,
};
use crate::clock::{clock_now, nanos_since, sleep_for};
use crate::decimal::{decimal_of, decimal_string};
use crate::error::Timeout;
use crate::span::Span;
use crate::step::{always_step, once_step};

verus! {

/// The message a lower-bound wait fails with, before the configured
/// description is appended: the condition did not hold when `elapsed`
/// nanoseconds had passed, which was still within the bound. The
/// single-shot variant reports its timeout with the same words.
pub open spec fn least_failure_message(elapsed_nanos: u64) -> Seq<char> {
    "Condition failed before duration "@ + decimal_of(elapsed_nanos as nat) + "ns elapsed."@
}

/// How one run of [`LeastWait::always`] relates its polls to its outcome.
/// `t` is a history of the run: one entry per loop turn, the condition's
/// outcome paired with an elapsed-time reading consistent with the
/// decision taken. Every turn but the last observed the condition true
/// within the bound and slept; the last turn either found the bound
/// already spent — success, without consulting the condition — or found
/// the condition false within the bound and recorded the failure, which
/// only the return strategy survives to observe.
pub open spec fn always_history<F: Fn() -> bool>(
    f: F,
    t: Seq<(bool, u64)>,
    pre: BackendModel,
    post: BackendModel,
    duration_nanos: u64,
) -> bool {
    &&& t.len() >= 1
    &&& (forall|i: int| 0 <= i < t.len() - 1 ==> call_ensures(f, (), t[i].0))
    &&& (forall|i: int|
        0 <= i < t.len() - 1 ==> always_step(t[i].0, t[i].1, duration_nanos) is Sleep)
    &&& ({
        ||| (always_step(t.last().0, t.last().1, duration_nanos) is Succeed && post == pre)
        ||| (call_ensures(f, (), t.last().0) && always_step(
            t.last().0,
            t.last().1,
            duration_nanos,
        ) is Fail && pre.returns_on_failure && post == fail_outcome(
            pre,
            least_failure_message(t.last().1),
        ))
    })
}

/// How one run of [`LeastWait::once`] relates its polls to its outcome:
/// every turn but the last polled the condition false within the bound and
/// slept; the last turn either polled it true within the bound — success —
/// or found the bound spent and recorded the failure without consulting
/// the condition, which only the return strategy survives to observe.
pub open spec fn once_history<F: Fn() -> bool>(
    f: F,
    t: Seq<(bool, u64)>,
    pre: BackendModel,
    post: BackendModel,
    duration_nanos: u64,
) -> bool {
    &&& t.len() >= 1
    &&& (forall|i: int| 0 <= i < t.len() - 1 ==> call_ensures(f, (), t[i].0))
    &&& (forall|i: int| 0 <= i < t.len() - 1 ==> once_step(t[i].0, t[i].1, duration_nanos) is Sleep)
    &&& ({
        ||| (call_ensures(f, (), t.last().0) && once_step(
            t.last().0,
            t.last().1,
            duration_nanos,
        ) is Succeed && post == pre)
        ||| (once_step(t.last().0, t.last().1, duration_nanos) is Fail
            && pre.returns_on_failure && post == fail_outcome(
            pre,
            least_failure_message(t.last().1),
        ))
    })
}

/// Law: a condition that can only poll true never makes the lower-bound
/// wait fail — the run ends with an elapsed reading beyond the bound and
/// leaves the recorded outcome untouched.
pub proof fn lemma_always_survives_on_true<F: Fn() -> bool>(
    f: F,
    t: Seq<(bool, u64)>,
    pre: BackendModel,
    post: BackendModel,
    duration_nanos: u64,
)
    requires
        always_history(f, t, pre, post, duration_nanos),
        forall|b: bool| call_ensures(f, (), b) ==> b,
    ensures
        t.last().1 > duration_nanos,
        post == pre,
{
}

/// Law: when a lower-bound wait changes the recorded outcome at all, the
/// condition really polled false, the elapsed reading named in the
/// recorded message lay within the bound, and the wait ran under the
/// return strategy.
pub proof fn lemma_always_fails_only_within_bound<F: Fn() -> bool>(
    f: F,
    t: Seq<(bool, u64)>,
    pre: BackendModel,
    post: BackendModel,
    duration_nanos: u64,
)
    requires
        always_history(f, t, pre, post, duration_nanos),
        post != pre,
    ensures
        t.last().1 <= duration_nanos,
        call_ensures(f, (), false),
        pre.returns_on_failure,
        post == fail_outcome(pre, least_failure_message(t.last().1)),
{
    assert(!t.last().0);
}

/// Law: a condition that can only poll true ends the single-shot wait on
/// its very first turn — no sleep ever happens. Unlike the upper-bound
/// wait, the turn may still be a failure: the single-shot wait consults
/// the deadline before the condition, so a first reading already beyond
/// the bound times out without one poll.
pub proof fn lemma_once_immediate_on_true<F: Fn() -> bool>(
    f: F,
    t: Seq<(bool, u64)>,
    pre: BackendModel,
    post: BackendModel,
    duration_nanos: u64,
)
    requires
        once_history(f, t, pre, post, duration_nanos),
        forall|b: bool| call_ensures(f, (), b) ==> b,
    ensures
        t.len() == 1,
        post == pre || (t.last().1 > duration_nanos && pre.returns_on_failure && post
            == fail_outcome(pre, least_failure_message(t.last().1))),
{
    if t.len() > 1 {
        assert(t[0].0);
        assert(once_step(t[0].0, t[0].1, duration_nanos) is Sleep);
        assert(false);
    }
}

/// A wait that requires its condition to keep holding until `duration` has
/// elapsed.
#[derive(Debug)]
pub struct LeastWait {
    duration: Span,
    backend: Backend,
}

impl View for LeastWait {
    type V = DirectiveModel;

    closed spec fn view(&self) -> DirectiveModel {
        DirectiveModel { duration: self.duration, backend: self.backend@ }
    }
}

/// A lower-bound wait with the default configuration.
pub fn at_least(duration: Span) -> (r: LeastWait)
    ensures
        r@ == (DirectiveModel { duration, backend: BackendModel::initial() }),
{
    LeastWait { duration, backend: Backend::default() }
}

/// A lower-bound wait that takes over an already configured backend.
pub fn at_least_backend(duration: Span, backend: Backend) -> (r: LeastWait)
    ensures
        r@ == (DirectiveModel { duration, backend: backend@ }),
{
    LeastWait { duration, backend }
}

impl LeastWait {
    /// Sets the sleep time between polls. Must be called before the waiting
    /// method.
    pub fn poll_interval(&mut self, interval: Span)
        ensures
            final(self)@ == (DirectiveModel {
                backend: (BackendModel { interval, ..old(self)@.backend }),
                ..old(self)@
            }),
    {
        self.backend.set_interval(interval);
    }

    /// Sets the annotation appended to failure messages. Must be called
    /// before the waiting method.
    pub fn describe(&mut self, desc: &str)
        ensures
            final(self)@ == (DirectiveModel {
                backend: (BackendModel { description: Some(desc@), ..old(self)@.backend }),
                ..old(self)@
            }),
    {
        self.backend.set_description(desc);
    }

    /// The last recorded outcome — meaningful only under the return
    /// strategy, where a failed wait stores a `Timeout` here.
    pub fn result(&self) -> (r: Result<(), Timeout>)
        ensures
            result_model(r) == self@.backend.result,
    {
        proof {
            lemma_backend_result(&self.backend);
        }
        match &self.backend.result {
            Ok(()) => Ok(()),
            Err(t) => Err(t.clone()),
        }
    }

    /// Polls `f` every interval and requires it to be true on every poll
    /// made before the bound elapses; once the elapsed time passes the
    /// bound the wait succeeds. The elapsed check comes before the poll, so
    /// the last sleep may run up to one interval past the nominal deadline
    /// — an accepted timing slack.
    ///
    /// On success the recorded outcome is left untouched. On a false poll
    /// the backend reports failure: under the panic strategy the calling
    /// context is aborted; under the return strategy a `Timeout` whose
    /// message names an elapsed time within the bound is recorded and the
    /// call returns.
    pub fn always<F: Fn() -> bool>(&mut self, f: F) -> (r: &Self)
        requires
            call_requires(f, ()),
        ensures
            final(self)@.duration == old(self)@.duration,
            final(self)@.backend.same_config(old(self)@.backend),
            exists|t: Seq<(bool, u64)>|
                #[trigger] always_history(
                    f,
                    t,
                    old(self)@.backend,
                    final(self)@.backend,
                    old(self)@.duration.nanos,
                ),
            *r == *final(self),
    {
        let ghost orig = self@;
        let ghost mut trace: Seq<(bool, u64)> = Seq::empty();
        let start = clock_now();
        let mut budget: u64 = u64::MAX;
        loop
            invariant_except_break
                self@ == orig,
                forall|i: int| 0 <= i < trace.len() ==> call_ensures(f, (), trace[i].0),
                forall|i: int|
                    0 <= i < trace.len() ==> always_step(
                        trace[i].0,
                        trace[i].1,
                        orig.duration.nanos,
                    ) is Sleep,
            invariant
                call_requires(f, ()),
            ensures
                self@.duration == orig.duration,
                self@.backend.same_config(orig.backend),
                exists|t: Seq<(bool, u64)>|
                    #[trigger] always_history(
                        f,
                        t,
                        orig.backend,
                        self@.backend,
                        orig.duration.nanos,
                    ),
            decreases budget,
        {
            let elapsed = nanos_since(&start);
            if elapsed > self.duration.nanos {
                proof {
                    trace = trace.push((true, elapsed));
                    assert(always_history(
                        f,
                        trace,
                        orig.backend,
                        self@.backend,
                        orig.duration.nanos,
                    ));
                }
                break ;
            }
            if !f() {
                let msg = String::from_str("Condition failed before duration ").concat(
                    decimal_string(elapsed).as_str(),
                ).concat("ns elapsed.");
                self.backend.fail(msg.as_str());
                proof {
                    trace = trace.push((false, elapsed));
                    assert(always_step(false, elapsed, orig.duration.nanos) is Fail);
                    assert(self@.backend == fail_outcome(
                        orig.backend,
                        least_failure_message(elapsed),
                    ));
                    assert(always_history(
                        f,
                        trace,
                        orig.backend,
                        self@.backend,
                        orig.duration.nanos,
                    ));
                }
                break ;
            }
            proof {
                trace = trace.push((true, elapsed));
            }
            if budget == 0 {
                // Each poll costs wall-clock time, so this bound outlasts
                // any reachable execution; it exists for the termination
                // measure above.
                let gone = exhausted();
                proof {
                    use_type_invariant(&gone);
                }
                break ;
            }
            budget = budget - 1;
            sleep_for(self.backend.interval);
        }
        self
    }

    /// Polls `f` every interval until it is true once within the bound; if
    /// the bound elapses first, the wait fails. The deadline check comes
    /// before the poll: this is the one place its behaviour differs from
    /// the upper-bound wait's polling, which consults the condition first.
    ///
    /// On success the recorded outcome is left untouched. On timeout the
    /// backend reports failure: under the panic strategy the calling
    /// context is aborted; under the return strategy a `Timeout` whose
    /// message names an elapsed time beyond the bound is recorded and the
    /// call returns.
    pub fn once<F: Fn() -> bool>(&mut self, f: F) -> (r: &Self)
        requires
            call_requires(f, ()),
        ensures
            final(self)@.duration == old(self)@.duration,
            final(self)@.backend.same_config(old(self)@.backend),
            exists|t: Seq<(bool, u64)>|
                #[trigger] once_history(
                    f,
                    t,
                    old(self)@.backend,
                    final(self)@.backend,
                    old(self)@.duration.nanos,
                ),
            *r == *final(self),
    {
        let ghost orig = self@;
        let ghost mut trace: Seq<(bool, u64)> = Seq::empty();
        let start = clock_now();
        let mut budget: u64 = u64::MAX;
        loop
            invariant_except_break
                self@ == orig,
                forall|i: int| 0 <= i < trace.len() ==> call_ensures(f, (), trace[i].0),
                forall|i: int|
                    0 <= i < trace.len() ==> once_step(
                        trace[i].0,
                        trace[i].1,
                        orig.duration.nanos,
                    ) is Sleep,
            invariant
                call_requires(f, ()),
            ensures
                self@.duration == orig.duration,
                self@.backend.same_config(orig.backend),
                exists|t: Seq<(bool, u64)>|
                    #[trigger] once_history(f, t, orig.backend, self@.backend, orig.duration.nanos),
            decreases budget,
        {
            let elapsed = nanos_since(&start);
            if elapsed > self.duration.nanos {
                let msg = String::from_str("Condition failed before duration ").concat(
                    decimal_string(elapsed).as_str(),
                ).concat("ns elapsed.");
                self.backend.fail(msg.as_str());
                proof {
                    trace = trace.push((false, elapsed));
                    assert(once_step(false, elapsed, orig.duration.nanos) is Fail);
                    assert(self@.backend == fail_outcome(
                        orig.backend,
                        least_failure_message(elapsed),
                    ));
                    assert(once_history(f, trace, orig.backend, self@.backend, orig.duration.nanos));
                }
                break ;
            }
            if f() {
                proof {
                    trace = trace.push((true, elapsed));
                    assert(once_step(true, elapsed, orig.duration.nanos) is Succeed);
                    assert(once_history(f, trace, orig.backend, self@.backend, orig.duration.nanos));
                }
                break ;
            }
            proof {
                trace = trace.push((false, elapsed));
            }
            if budget == 0 {
                // Each poll costs wall-clock time, so this bound outlasts
                // any reachable execution; it exists for the termination
                // measure above.
                let gone = exhausted();
                proof {
                    use_type_invariant(&gone);
                }
                break ;
            }
            budget = budget - 1;
            sleep_for(self.backend.interval);
        }
        self
    }
}

} // verus!
