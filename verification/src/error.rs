//! The engine's one error kind: a timed-out or violated condition.

use vstd::prelude::*;
use vstd::string::StringExecFns;

verus! {

/// A condition was not satisfied within its bound, or stopped holding before
/// its bound elapsed. Carries a human-readable message, immutable after
/// construction.
#[derive(Debug)]
pub struct Timeout {
    msg: String,
}

impl View for Timeout {
    type V = Seq<char>;

    /// A `Timeout` is abstractly its message.
    closed spec fn view(&self) -> Seq<char> {
        self.msg@
    }
}

impl Clone for Timeout {
    fn clone(&self) -> (r: Self)
        ensures
            r@ == self@,
    {
        Timeout { msg: self.msg.clone() }
    }
}

impl Timeout {
    /// Wraps a message into a `Timeout`.
    pub fn new(msg: String) -> (r: Timeout)
        ensures
            r@ == msg@,
    {
        Timeout { msg }
    }

    /// The message rendered the way the error displays itself:
    /// `"TimeoutError: <message>"`.
    pub fn display_string(&self) -> (r: String)
        ensures
            r@ == "TimeoutError: "@ + self@,
    {
        let mut out = String::from_str("TimeoutError: ");
        out.append(self.msg.as_str());
        out
    }
}

} // verus!
