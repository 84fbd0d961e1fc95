//! Promise rejection tracking: the policy, the engine's events, and what is
//! done for each event.
use vstd::prelude::*;
use crate::text::{append_str, str_eq};

verus! {

/// What is done about a promise rejected with no handler.
#[derive(Clone, Copy, Debug, PartialEq, Eq, Structural)]
pub enum RejectionPolicy {
    Ignore,
    Warn,
}

/// The policy was neither "ignore" nor "warn".
#[derive(Clone, Copy, Debug, PartialEq, Eq, Structural)]
pub struct UnknownRejectionPolicy;

/// The policy a name stands for.
pub open spec fn rejection_policy_named(name: Seq<char>) -> Option<RejectionPolicy> {
    if name == "ignore"@ {
        Some(RejectionPolicy::Ignore)
    } else if name == "warn"@ {
        Some(RejectionPolicy::Warn)
    } else {
        None
    }
}

impl RejectionPolicy {
    /// Parses "ignore" or "warn"; Python's default is "warn".
    pub fn parse(policy: &str) -> (r: Result<RejectionPolicy, UnknownRejectionPolicy>)
        ensures
            match rejection_policy_named(policy@) {
                Some(p) => r == Ok::<RejectionPolicy, UnknownRejectionPolicy>(p),
                None => r == Err::<RejectionPolicy, UnknownRejectionPolicy>(UnknownRejectionPolicy),
            },
    {
        if str_eq(policy, "ignore") {
            Ok(RejectionPolicy::Ignore)
        } else if str_eq(policy, "warn") {
            Ok(RejectionPolicy::Warn)
        } else {
            Err(UnknownRejectionPolicy)
        }
    }
}

/// The engine's promise rejection events.
#[derive(Clone, Copy, Debug, PartialEq, Eq, Structural)]
pub enum RejectEvent {
    RejectWithNoHandler,
    HandlerAddedAfterReject,
    RejectAfterResolved,
    ResolveAfterResolved,
}

/// The name under which an event is reported to the callback.
pub open spec fn reject_event_text(e: RejectEvent) -> Seq<char> {
    match e {
        RejectEvent::RejectWithNoHandler => "reject_with_no_handler"@,
        RejectEvent::HandlerAddedAfterReject => "handler_added_after_reject"@,
        RejectEvent::RejectAfterResolved => "reject_after_resolved"@,
        RejectEvent::ResolveAfterResolved => "resolve_after_resolved"@,
    }
}

/// The name under which an event is reported to the callback.
pub fn event_name(event: RejectEvent) -> (r: &'static str)
    ensures
        r@ == reject_event_text(event),
{
    match event {
        RejectEvent::RejectWithNoHandler => "reject_with_no_handler",
        RejectEvent::HandlerAddedAfterReject => "handler_added_after_reject",
        RejectEvent::RejectAfterResolved => "reject_after_resolved",
        RejectEvent::ResolveAfterResolved => "resolve_after_resolved",
    }
}

/// The text shown for a rejection reason: "undefined" and "null" for those
/// values, else the value's string conversion, or "<exception>" when that
/// conversion threw.
pub open spec fn reason_text(is_undefined: bool, is_null: bool, converted: Option<Seq<char>>) -> Seq<
    char,
> {
    if is_undefined {
        "undefined"@
    } else if is_null {
        "null"@
    } else {
        match converted {
            Some(s) => s,
            None => "<exception>"@,
        }
    }
}

/// The text shown for a rejection reason.
pub fn reason_to_string(is_undefined: bool, is_null: bool, converted: Option<String>) -> (r: String)
    ensures
        r@ == reason_text(
            is_undefined,
            is_null,
            match converted {
                Some(s) => Some(s@),
                None => None,
            },
        ),
{
    if is_undefined {
        return String::from_str("undefined");
    }
    if is_null {
        return String::from_str("null");
    }
    match converted {
        Some(s) => s,
        None => String::from_str("<exception>"),
    }
}

/// The warning given for an unhandled rejection.
pub open spec fn unhandled_rejection_text(reason: Option<Seq<char>>) -> Seq<char> {
    match reason {
        Some(r) => "Unhandled JavaScript Promise rejection: "@ + r,
        None => "Unhandled JavaScript Promise rejection."@,
    }
}

/// What is done about one event.
pub struct RejectionActions {
    /// Whether the Python callback is called with the event and the reason.
    pub call_callback: bool,
    /// The warning to give, if any.
    pub warning: Option<String>,
}

/// What is done about one event: the callback, when there is one, hears of
/// every event; under the "warn" policy a rejection with no handler also
/// gives a warning that quotes the reason.
pub fn rejection_actions(policy: RejectionPolicy, has_callback: bool, event: RejectEvent, reason: Option<&str>) -> (r: RejectionActions)
    ensures
        r.call_callback == has_callback,
        r.warning is Some <==> (policy == RejectionPolicy::Warn && event == RejectEvent::RejectWithNoHandler),
        r.warning matches Some(w) ==> w@ == unhandled_rejection_text(
            match reason {
                Some(s) => Some(s@),
                None => None,
            },
        ),
{
    let warn = match (policy, event) {
        (RejectionPolicy::Warn, RejectEvent::RejectWithNoHandler) => true,
        _ => false,
    };
    if !warn {
        return RejectionActions { call_callback: has_callback, warning: None };
    }
    let message = match reason {
        Some(text) => {
            let mut m = String::from_str("Unhandled JavaScript Promise rejection: ");
            append_str(&mut m, text);
            m
        },
        None => String::from_str("Unhandled JavaScript Promise rejection."),
    };
    RejectionActions { call_callback: has_callback, warning: Some(message) }
}

} // verus!
