//! The shared-configuration facade: configure one backend, then mint any
//! number of wait directives from it. Each directive receives its own copy
//! of the backend at minting time, so later facade configuration never
//! reaches a directive already minted, and sibling directives never
//! interfere.

use vstd::prelude::*;

use crate::backend::{Backend, BackendModel, DirectiveModel};
use crate::least::{at_least_backend, LeastWait};
use crate::most::{at_most_backend, MostWait};
use crate::span::Span;

verus! {

/// A holder of one configured backend, from which wait directives are
/// minted.
#[derive(Debug)]
pub struct Awaitility {
    backend: Backend,
}

impl View for Awaitility {
    type V = BackendModel;

    /// A facade is abstractly the backend it holds.
    closed spec fn view(&self) -> BackendModel {
        self.backend@
    }
}

/// A facade holding a backend with the default configuration.
pub fn new() -> (r: Awaitility)
    ensures
        r@ == BackendModel::initial(),
{
    Awaitility { backend: Backend::default() }
}

impl Awaitility {
    /// Sets the sleep time between polls for every directive minted from
    /// now on.
    pub fn poll_interval(self, interval: Span) -> (r: Self)
        ensures
            r@ == (BackendModel { interval, ..self@ }),
    {
        let mut next = self;
        next.backend.set_interval(interval);
        next
    }

    /// Switches the failure strategy to recording a `Timeout`, for every
    /// directive minted from now on.
    pub fn set_return(self) -> (r: Self)
        ensures
            r@ == (BackendModel { returns_on_failure: true, ..self@ }),
    {
        let mut next = self;
        next.backend.set_return();
        next
    }

    /// Mints an upper-bound wait carrying a copy of the facade's current
    /// backend. The facade itself is untouched: configuration done on
    /// either side afterwards stays on that side.
    pub fn at_most(&self, duration: Span) -> (r: MostWait)
        ensures
            r@ == (DirectiveModel { duration, backend: self@ }),
    {
        at_most_backend(duration, self.backend.clone())
    }

    /// Mints a lower-bound wait carrying a copy of the facade's current
    /// backend, like `at_most`.
    pub fn at_least(&self, duration: Span) -> (r: LeastWait)
        ensures
            r@ == (DirectiveModel { duration, backend: self@ }),
    {
        at_least_backend(duration, self.backend.clone())
    }
}

} // verus!
