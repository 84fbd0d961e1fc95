//! Awaiting a JavaScript promise from Python: the awaiter's steps, and the
//! text of a rejection.  `V` is the host's handle for a value.
use vstd::prelude::*;
use crate::text::append_str;

verus! {

/// What polling the promise found.
pub enum PromisePoll<V> {
    Pending,
    Fulfilled(V),
    /// Rejected, with the text of the reason.
    Rejected(String),
}

/// What one step of the awaiter gives Python.
pub enum AwaitStep<V> {
    /// Not settled yet: yield `None` and poll again later.
    Yield,
    /// Settled with a value: stop with it.
    Finish(V),
    /// Rejected: raise with this message.
    Raise(String),
    /// The awaiter finished before: stop with `None`.
    Exhausted,
}

/// The message raised for a rejected promise.
pub open spec fn rejection_text(reason: Seq<char>) -> Seq<char> {
    "JavaScript Promise rejected: "@ + reason
}

/// An awaiter over one promise.
pub struct PromiseAwaiter {
    done: bool,
}

impl PromiseAwaiter {
    /// Whether the awaiter has finished.
    pub closed spec fn finished(&self) -> bool {
        self.done
    }

    /// An awaiter that has not finished.
    pub fn new() -> (r: Self)
        ensures
            !r.finished(),
    {
        PromiseAwaiter { done: false }
    }

    /// Whether the next step polls the promise: only until the awaiter has
    /// finished.
    pub fn needs_poll(&self) -> (r: bool)
        ensures
            r == !self.finished(),
    {
        !self.done
    }

    /// One step of the awaiter: without a poll (once finished) it stops with
    /// `None`; a pending promise yields; a settled one finishes the awaiter,
    /// with its value or with an error that quotes the reason.
    pub fn step<V>(&mut self, poll: Option<PromisePoll<V>>) -> (r: AwaitStep<V>)
        requires
            old(self).finished() <==> poll is None,
        ensures
            old(self).finished() ==> r is Exhausted && final(self).finished(),
            !old(self).finished() ==> match poll {
                Some(PromisePoll::Pending) => r is Yield && !final(self).finished(),
                Some(PromisePoll::Fulfilled(v)) => r == AwaitStep::Finish(v) && final(self).finished(),
                Some(PromisePoll::Rejected(reason)) => (r matches AwaitStep::Raise(m) && m@ == rejection_text(reason@))
                    && final(self).finished(),
                None => false,
            },
    {
        match poll {
            None => AwaitStep::Exhausted,
            Some(PromisePoll::Pending) => AwaitStep::Yield,
            Some(PromisePoll::Fulfilled(v)) => {
                self.done = true;
                AwaitStep::Finish(v)
            },
            Some(PromisePoll::Rejected(reason)) => {
                self.done = true;
                let mut m = String::from_str("JavaScript Promise rejected: ");
                append_str(&mut m, reason.as_str());
                AwaitStep::Raise(m)
            },
        }
    }
}

/// The text of a rejection reason: "undefined" and "null" for those, the
/// symbol's text for a symbol, the reason's string conversion, or
/// "<rejected>" when that conversion threw.
pub open spec fn reason_text(is_undefined: bool, is_null: bool, symbol: Option<Seq<char>>, converted: Option<Seq<char>>) -> Seq<char> {
    if is_undefined {
        "undefined"@
    } else if is_null {
        "null"@
    } else if symbol is Some {
        symbol->0
    } else {
        match converted {
            Some(s) => s,
            None => "<rejected>"@,
        }
    }
}

/// The text of a rejection reason; `symbol` is the reason's symbol text
/// when it is a symbol.
pub fn rejection_reason_to_string(
    is_undefined: bool,
    is_null: bool,
    symbol: Option<String>,
    converted: Option<String>,
) -> (r: String)
    ensures
        r@ == reason_text(
            is_undefined,
            is_null,
            match symbol {
                Some(s) => Some(s@),
                None => None,
            },
            match converted {
                Some(s) => Some(s@),
                None => None,
            },
        ),
{
    if is_undefined {
        return String::from_str("undefined");
    }
    if is_null {
        return String::from_str("null");
    }
    match symbol {
        Some(s) => s,
        None => match converted {
            Some(s) => s,
            None => String::from_str("<rejected>"),
        },
    }
}

} // verus!
