//! The inspector session's queue of protocol messages and the texts shown
//! for inspectors and sessions.
use vstd::prelude::*;
use crate::text::{append_decimal, append_signed_decimal, append_str, debug_quote, debug_quoted, decimal, signed_decimal, string_views};

verus! {

/// The protocol messages the engine sent to a session and that Python has
/// not taken yet, oldest first.
pub struct InspectorMessageQueue {
    queue: Vec<String>,
}

/// Copies a list of strings.
fn copy_strings(v: &Vec<String>) -> (r: Vec<String>)
    ensures
        string_views(r@) == string_views(v@),
{
    let mut out: Vec<String> = Vec::new();
    for i in 0..v.len()
        invariant
            out@.len() == i,
            string_views(out@) == string_views(v@.take(i as int)),
    {
        let ghost prev = out@;
        out.push(v[i].clone());
        proof {
            assert forall|j: int| 0 <= j < i + 1 implies #[trigger] string_views(out@)[j]
                == string_views(v@.take(i + 1))[j] by {
                if j < i {
                    assert(string_views(prev)[j] == string_views(v@.take(i as int))[j]);
                    assert(out@[j] == prev[j]);
                }
            }
            assert(string_views(out@) =~= string_views(v@.take(i + 1)));
        }
    }
    assert(v@.take(v@.len() as int) =~= v@);
    out
}

impl InspectorMessageQueue {
    /// The queued messages, oldest first.
    pub closed spec fn contents(&self) -> Seq<Seq<char>> {
        string_views(self.queue@)
    }

    /// An empty queue.
    pub fn new() -> (r: Self)
        ensures
            r.contents().len() == 0,
    {
        InspectorMessageQueue { queue: Vec::new() }
    }

    /// Queues a message the engine sent.
    pub fn push(&mut self, message: String)
        ensures
            final(self).contents() == old(self).contents().push(message@),
    {
        self.queue.push(message);
        assert(string_views(self.queue@) =~= string_views(old(self).queue@).push(message@));
    }

    /// The queued messages, left in the queue.
    pub fn messages(&self) -> (r: Vec<String>)
        ensures
            string_views(r@) == self.contents(),
    {
        copy_strings(&self.queue)
    }

    /// The queued messages, taken out of the queue.
    pub fn take_messages(&mut self) -> (r: Vec<String>)
        ensures
            string_views(r@) == old(self).contents(),
            final(self).contents().len() == 0,
    {
        let mut taken: Vec<String> = Vec::new();
        std::mem::swap(&mut taken, &mut self.queue);
        assert(string_views(self.queue@) =~= Seq::<Seq<char>>::empty());
        taken
    }

    /// Drops the queued messages.
    pub fn clear_messages(&mut self)
        ensures
            final(self).contents().len() == 0,
    {
        self.queue.clear();
        assert(string_views(self.queue@) =~= Seq::<Seq<char>>::empty());
    }

    /// The number of queued messages.
    pub fn __len__(&self) -> (r: usize)
        ensures
            r == self.contents().len(),
    {
        self.queue.len()
    }

    /// Whether any message is queued.
    pub fn __bool__(&self) -> (r: bool)
        ensures
            r == (self.contents().len() > 0),
    {
        self.queue.len() > 0
    }
}

/// The text shown for an inspector.
pub open spec fn inspector_text(name: Seq<char>, context_group_id: i32) -> Seq<char> {
    "v8.Inspector(name="@ + debug_quoted(name) + ", context_group_id="@ + signed_decimal(
        context_group_id as int,
    ) + ")"@
}

/// The text shown for an inspector: its name quoted as Rust's `{:?}` quotes
/// a string, and its context group.
pub fn inspector_repr(name: &str, context_group_id: i32) -> (r: String)
    ensures
        r@ == inspector_text(name@, context_group_id),
{
    let mut r = String::from_str("v8.Inspector(name=");
    let quoted = debug_quote(name);
    append_str(&mut r, quoted.as_str());
    append_str(&mut r, ", context_group_id=");
    append_signed_decimal(&mut r, context_group_id as i64);
    append_str(&mut r, ")");
    r
}

/// The text shown for a session.
pub open spec fn session_text(context_group_id: i32, queued: nat) -> Seq<char> {
    "v8.InspectorSession(context_group_id="@ + signed_decimal(context_group_id as int)
        + ", queued_messages="@ + decimal(queued) + ")"@
}

/// The text shown for a session: its context group and how many messages
/// are queued.
pub fn session_repr(context_group_id: i32, queue: &InspectorMessageQueue) -> (r: String)
    ensures
        r@ == session_text(context_group_id, queue.contents().len()),
{
    let mut r = String::from_str("v8.InspectorSession(context_group_id=");
    append_signed_decimal(&mut r, context_group_id as i64);
    append_str(&mut r, ", queued_messages=");
    append_decimal(&mut r, queue.__len__() as u64);
    append_str(&mut r, ")");
    r
}

/// How far the inspector trusts a session's client.
#[derive(Clone, Copy, Debug, PartialEq, Eq, Structural)]
pub enum TrustLevel {
    FullyTrusted,
    Untrusted,
}

/// The trust level of a session: full trust unless Python says otherwise.
pub fn trust_level(trusted: bool) -> (r: TrustLevel)
    ensures
        r == (if trusted {
            TrustLevel::FullyTrusted
        } else {
            TrustLevel::Untrusted
        }),
{
    if trusted {
        TrustLevel::FullyTrusted
    } else {
        TrustLevel::Untrusted
    }
}

} // verus!
