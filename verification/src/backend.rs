//! The shared configuration/result backend that every wait directive owns:
//! the polling interval, an optional description appended to failure
//! messages, the failure strategy, and the last recorded outcome.

use vstd::prelude::*;
use vstd::string::StringExecFns;

use crate::error::Timeout;
use crate::span::Span;
use crate::DEFAULT_INTERVAL_NANOS;

verus! {

/// What a failed wait does: abort the calling context (the default), or
/// record a `Timeout` for the caller to inspect.
#[derive(Clone, Copy, PartialEq, Eq, Structural, Debug)]
pub(crate) enum FailStrategy {
    Panic,
    Return,
}

/// The abstract value of a [`Backend`]: its configuration as plain values,
/// with the description and the recorded error as character sequences.
#[verifier::ext_equal]
pub ghost struct BackendModel {
    /// Sleep time between two polls.
    pub interval: Span,
    /// Optional annotation appended to failure messages.
    pub description: Option<Seq<char>>,
    /// True when a failed wait records a `Timeout` instead of aborting.
    pub returns_on_failure: bool,
    /// The last recorded outcome; `Err` carries the failure message.
    pub result: Result<(), Seq<char>>,
}

/// The abstract value of a wait directive: the bound it enforces and the
/// backend it owns.
#[verifier::ext_equal]
pub ghost struct DirectiveModel {
    /// The bound being enforced.
    pub duration: Span,
    /// The directive's own copy of the configuration backend.
    pub backend: BackendModel,
}

impl BackendModel {
    /// The configuration a backend starts with: 50ms interval, no
    /// description, abort on failure, last outcome `Ok`.
    pub open spec fn initial() -> BackendModel {
        BackendModel {
            interval: Span { nanos: DEFAULT_INTERVAL_NANOS },
            description: None,
            returns_on_failure: false,
            result: Ok(()),
        }
    }

    /// `other` carries the same configuration: only the recorded outcome may
    /// differ.
    pub open spec fn same_config(self, other: BackendModel) -> bool {
        &&& self.interval == other.interval
        &&& self.description == other.description
        &&& self.returns_on_failure == other.returns_on_failure
    }
}

/// The abstract value of a recorded outcome: `Err` reduced to its message.
pub open spec fn result_model(r: Result<(), Timeout>) -> Result<(), Seq<char>> {
    match r {
        Ok(()) => Ok(()),
        Err(t) => Err(t@),
    }
}

/// The full failure message: the basic description, a space, and the
/// configured description (empty when none is configured).
pub open spec fn with_description(basic: Seq<char>, desc: Option<Seq<char>>) -> Seq<char> {
    basic + " "@ + (match desc {
        Some(d) => d,
        None => ""@,
    })
}

/// What [`Backend::fail`] leaves behind when it returns: the composed
/// message, recorded as the outcome. Under the panic strategy `fail` never
/// returns, so this describes the return strategy alone.
pub open spec fn fail_outcome(b: BackendModel, basic: Seq<char>) -> BackendModel {
    BackendModel { result: Err(with_description(basic, b.description)), ..b }
}

/// Mutable polling configuration plus the last-result slot. Each wait
/// directive owns one; a facade clones its own into every directive it
/// mints, so sibling directives never share mutable state.
#[derive(Debug)]
pub struct Backend {
    /// Sleep time between two polls.
    pub interval: Span,
    pub(crate) description: Option<String>,
    pub(crate) fail_strategy: FailStrategy,
    /// The last recorded outcome; starts `Ok` and is overwritten only by a
    /// failed wait under the return strategy.
    pub result: Result<(), Timeout>,
}

impl View for Backend {
    type V = BackendModel;

    closed spec fn view(&self) -> BackendModel {
        BackendModel {
            interval: self.interval,
            description: match self.description {
                Some(ref d) => Some(d@),
                None => None,
            },
            returns_on_failure: self.fail_strategy is Return,
            result: result_model(self.result),
        }
    }
}

/// The `result` field is the recorded outcome the backend's abstract value
/// reports.
pub(crate) proof fn lemma_backend_result(b: &Backend)
    ensures
        b@.result == result_model(b.result),
{
}

impl Clone for Backend {
    fn clone(&self) -> (r: Self)
        ensures
            r@ == self@,
    {
        let r = Backend {
            interval: self.interval,
            description: match &self.description {
                Some(d) => Some(d.clone()),
                None => None,
            },
            fail_strategy: self.fail_strategy,
            result: match &self.result {
                Ok(()) => Ok(()),
                Err(t) => Err(t.clone()),
            },
        };
        proof {
            assert(r@ =~= self@);
        }
        r
    }
}

/// The result type of an abort. No value of it can ever exist — its type
/// invariant rules every value out — so a call typed to yield one is a call
/// that never returns.
pub(crate) struct NoReturn {
    pub(crate) marker: bool,
}

#[verifier::type_invariant]
pub(crate) open spec fn no_return_is_uninhabited(v: NoReturn) -> bool {
    !v.marker && v.marker
}

/// Relies on Option::expect: an empty option makes it panic, carrying `msg`
/// as the panic message, so control never comes back and no value of
/// `NoReturn` is ever produced. This is the one deliberate abort in the
/// library, implementing the panic failure strategy.
#[verifier::external_body]
pub(crate) fn abort_with(msg: String) -> NoReturn {
    let outcome: Option<NoReturn> = None;
    outcome.expect(msg.as_str())
}

/// Aborts a wait that has spent its entire polling budget. Every poll costs
/// wall-clock time, so no real execution reaches this; the polling loops
/// call it only to close their termination measure.
pub(crate) fn exhausted() -> NoReturn {
    abort_with(String::from_str("Polling budget exhausted."))
}

impl Backend {
    /// A backend with the default configuration.
    pub fn default() -> (r: Backend)
        ensures
            r@ == BackendModel::initial(),
    {
        Backend {
            interval: Span { nanos: DEFAULT_INTERVAL_NANOS },
            description: None,
            fail_strategy: FailStrategy::Panic,
            result: Ok(()),
        }
    }

    /// Records the failure described by `basic_desc`, with the configured
    /// description appended. Under the panic strategy this aborts the
    /// calling context and never returns; under the return strategy — the
    /// only one a caller can observe this call returning from — it stores a
    /// `Timeout` and leaves stopping to the caller.
    pub fn fail(&mut self, basic_desc: &str)
        ensures
            old(self)@.returns_on_failure,
            final(self)@ == fail_outcome(old(self)@, basic_desc@),
    {
        let mut msg = basic_desc.to_owned();
        msg.append(" ");
        match &self.description {
            Some(d) => msg.append(d.as_str()),
            None => msg.append(""),
        }
        match self.fail_strategy {
            FailStrategy::Panic => {
                let gone = abort_with(msg);
                proof {
                    use_type_invariant(&gone);
                }
            },
            FailStrategy::Return => {
                self.result = Err(Timeout::new(msg));
            },
        }
        proof {
            assert(final(self)@ =~= fail_outcome(old(self)@, basic_desc@));
        }
    }

    /// Sets the sleep time between polls. Not validated: a zero interval is
    /// accepted and busy-polls.
    pub fn set_interval(&mut self, interval: Span)
        ensures
            final(self)@ == (BackendModel { interval, ..old(self)@ }),
    {
        self.interval = interval;
    }

    /// Sets the annotation appended to failure messages.
    pub fn set_description(&mut self, desc: &str)
        ensures
            final(self)@ == (BackendModel { description: Some(desc@), ..old(self)@ }),
    {
        self.description = Some(desc.to_owned());
    }

    /// Switches the failure strategy from aborting to recording a `Timeout`.
    pub fn set_return(&mut self)
        ensures
            final(self)@ == (BackendModel { returns_on_failure: true, ..old(self)@ }),
    {
        self.fail_strategy = FailStrategy::Return;
    }
}

} // verus!
