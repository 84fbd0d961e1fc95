//! Bookkeeping of the runtime: isolate ids and the order in which retired
//! isolates may be released, script ids, the registries of host functions and
//! of host-owned payloads behind `External` values, and the process-wide
//! engine flags.
use std::collections::HashMap;
use vstd::prelude::*;
use crate::text::{append_str, str_eq};

verus! {

broadcast use vstd::std_specs::hash::group_hash_axioms;

/// Tracks live isolates in creation order and holds retired ones until every
/// isolate created after them has been released too: the engine requires
/// isolates to be released in the reverse order of their creation.
pub struct IsolateRegistry<I> {
    creation_stack: Vec<u64>,
    pending: HashMap<u64, I>,
    dropped_isolates: usize,
}

/// `released` lists, newest first, the isolates pending under the top
/// `released.len()` ids of `stack`.
pub open spec fn released_newest_first<I>(stack: Seq<u64>, pending: Map<u64, I>, released: Seq<I>) -> bool {
    &&& released.len() <= stack.len()
    &&& forall|i: int| 0 <= i < released.len() ==> #[trigger] released_at(stack, pending, released, i)
}

/// The `i`-th released isolate is the one pending under the `i`-th id from
/// the top of `stack`.
pub open spec fn released_at<I>(stack: Seq<u64>, pending: Map<u64, I>, released: Seq<I>, i: int) -> bool {
    let id = stack[stack.len() - 1 - i];
    &&& pending.contains_key(id)
    &&& released[i] == pending[id]
}

/// One operation on a registry as the operations' contracts describe it:
/// registering an isolate, retiring one, or releasing some of the newest.
pub open spec fn registry_step<I>(before: IsolateRegistry<I>, after: IsolateRegistry<I>) -> bool {
    ||| (exists|id: u64| after.stack() == #[trigger] before.stack().push(id)) && after.pending_view()
        == before.pending_view() && after.dropped() == before.dropped()
    ||| (exists|id: u64, isolate: I| after.pending_view() == #[trigger] before.pending_view().insert(
        id,
        isolate,
    )) && after.stack() == before.stack() && after.dropped() == before.dropped()
    ||| exists|n: nat|
        n <= before.stack().len() && after.stack() == #[trigger] before.stack().take(
            before.stack().len() - n,
        ) && after.dropped() == before.dropped() + n
}

/// The number of released isolates never goes down: along any run of
/// registry operations, a later count is at least an earlier one.
pub proof fn released_count_never_decreases<I>(states: Seq<IsolateRegistry<I>>, i: int, j: int)
    requires
        forall|k: int| 0 <= k < states.len() - 1 ==> registry_step(#[trigger] states[k], states[k + 1]),
        0 <= i <= j < states.len(),
    ensures
        states[i].dropped() <= states[j].dropped(),
    decreases j - i,
{
    if i < j {
        released_count_never_decreases(states, i, j - 1);
        assert(registry_step(states[j - 1], states[j]));
    }
}

impl<I> IsolateRegistry<I> {
    /// The ids of the isolates not yet released, oldest first.
    pub closed spec fn stack(&self) -> Seq<u64> {
        self.creation_stack@
    }

    /// The retired isolates waiting to be released, by id.
    pub closed spec fn pending_view(&self) -> Map<u64, I> {
        self.pending@
    }

    /// The number of isolates released so far.
    pub closed spec fn dropped(&self) -> nat {
        self.dropped_isolates as nat
    }

    /// The registry's invariant: ids are registered in increasing order, so
    /// the stack holds distinct ids, and only isolates on the stack can be
    /// pending.
    pub closed spec fn wf(&self) -> bool {
        &&& forall|i: int, j: int|
            0 <= i < j < self.creation_stack@.len() ==> self.creation_stack@[i]
                < self.creation_stack@[j]
        &&& forall|id: u64| #[trigger]
            self.pending@.contains_key(id) ==> self.creation_stack@.contains(id)
        &&& self.dropped_isolates + self.creation_stack@.len() <= usize::MAX
    }

    /// An empty registry.
    pub fn new() -> (r: Self)
        ensures
            r.wf(),
            r.stack() == Seq::<u64>::empty(),
            r.pending_view() == Map::<u64, I>::empty(),
            r.dropped() == 0,
    {
        IsolateRegistry {
            creation_stack: Vec::new(),
            pending: HashMap::new(),
            dropped_isolates: 0,
        }
    }

    /// Whether an isolate can be registered under `isolate_id`: the id is
    /// newer than every isolate still held, and the count of isolates is not
    /// exhausted.
    pub fn can_register(&self, isolate_id: u64) -> (r: bool)
        ensures
            r == ((self.stack().len() == 0 || self.stack().last() < isolate_id) && self.dropped()
                + self.stack().len() < usize::MAX),
    {
        let len = self.creation_stack.len();
        (len == 0 || self.creation_stack[len - 1] < isolate_id) && len < usize::MAX - self.dropped_isolates
    }

    /// Whether an isolate is live and not yet retired, so that it can be
    /// retired.
    pub fn awaits_retirement(&self, isolate_id: u64) -> (r: bool)
        ensures
            r == (self.stack().contains(isolate_id) && !self.pending_view().contains_key(isolate_id)),
    {
        if self.pending.contains_key(&isolate_id) {
            return false;
        }
        let mut i: usize = 0;
        while i < self.creation_stack.len()
            invariant
                i <= self.creation_stack@.len(),
                !self.pending@.contains_key(isolate_id),
                forall|j: int| 0 <= j < i ==> self.creation_stack@[j] != isolate_id,
            decreases self.creation_stack@.len() - i,
        {
            if self.creation_stack[i] == isolate_id {
                assert(self.creation_stack@[i as int] == isolate_id);
                return true;
            }
            i = i + 1;
        }
        false
    }

    /// Records the creation of an isolate under an id newer than every
    /// isolate still held (the host draws ids from one increasing counter).
    pub fn register_isolate(&mut self, id: u64)
        requires
            old(self).wf(),
            old(self).stack().len() == 0 || old(self).stack().last() < id,
            old(self).dropped() + old(self).stack().len() < usize::MAX,
        ensures
            final(self).wf(),
            final(self).stack() == old(self).stack().push(id),
            final(self).pending_view() == old(self).pending_view(),
            final(self).dropped() == old(self).dropped(),
            registry_step(*old(self), *final(self)),
    {
        self.creation_stack.push(id);
        proof {
            assert forall|k: u64| #[trigger] self.pending@.contains_key(k) implies self.creation_stack@.contains(k) by {
                assert(old(self).creation_stack@.contains(k));
                let i = choose|i: int| #![auto] 0 <= i < old(self).creation_stack@.len() && old(self).creation_stack@[i] == k;
                assert(self.creation_stack@[i] == k);
            }
            assert forall|i: int, j: int|
                0 <= i < j < self.creation_stack@.len() implies self.creation_stack@[i]
                < self.creation_stack@[j] by {
                if j == self.creation_stack@.len() - 1 && i < j {
                    let last = old(self).creation_stack@.len() - 1;
                    if i < last {
                        assert(old(self).creation_stack@[i] < old(self).creation_stack@[last]);
                    }
                }
            }
        }
    }

    /// Hands over a retired isolate; it is released once it is the newest
    /// isolate left.
    pub fn retire_isolate(&mut self, isolate_id: u64, isolate: I)
        requires
            old(self).wf(),
            old(self).stack().contains(isolate_id),
            !old(self).pending_view().contains_key(isolate_id),
        ensures
            final(self).wf(),
            final(self).stack() == old(self).stack(),
            final(self).pending_view() == old(self).pending_view().insert(isolate_id, isolate),
            final(self).dropped() == old(self).dropped(),
            registry_step(*old(self), *final(self)),
    {
        self.pending.insert(isolate_id, isolate);
    }

    /// Releases, newest first, every retired isolate that no newer live
    /// isolate holds back, and returns them in that order so that the caller
    /// disposes of them one after the other.
    pub fn drop_ready_isolates(&mut self) -> (released: Vec<I>)
        requires
            old(self).wf(),
        ensures
            final(self).wf(),
            released.len() <= old(self).stack().len(),
            final(self).stack() == old(self).stack().take(
                old(self).stack().len() - released.len(),
            ),
            released_newest_first(old(self).stack(), old(self).pending_view(), released@),
            final(self).pending_view() == old(self).pending_view().remove_keys(
                old(self).stack().skip(final(self).stack().len() as int).to_set(),
            ),
            final(self).stack().len() > 0 ==> !final(self).pending_view().contains_key(
                final(self).stack().last(),
            ),
            released.len() < old(self).stack().len() ==> !old(self).pending_view().contains_key(
                old(self).stack()[old(self).stack().len() - 1 - released.len()],
            ),
            final(self).dropped() == old(self).dropped() + released.len(),
            registry_step(*old(self), *final(self)),
    {
        let mut released: Vec<I> = Vec::new();
        let ghost old_stack = self.creation_stack@;
        let ghost old_pending = self.pending@;
        loop
            invariant
                self.wf(),
                released.len() <= old_stack.len(),
                self.creation_stack@ == old_stack.take(old_stack.len() - released.len()),
                released_newest_first(old_stack, old_pending, released@),
                self.pending@ == old_pending.remove_keys(
                    old_stack.skip(self.creation_stack@.len() as int).to_set(),
                ),
                self.dropped_isolates == old(self).dropped_isolates,
                old_stack == old(self).creation_stack@,
                old_pending == old(self).pending@,
                old(self).wf(),
            ensures
                self.creation_stack@.len() > 0 ==> !self.pending@.contains_key(
                    self.creation_stack@.last(),
                ),
            decreases self.creation_stack@.len(),
        {
            let len = self.creation_stack.len();
            if len == 0 {
                break;
            }
            let top = self.creation_stack[len - 1];
            match self.pending.remove(&top) {
                None => {
                    break;
                },
                Some(isolate) => {
                    let ghost before_stack = self.creation_stack@;
                    let ghost before_pending = self.pending@;
                    let ghost prior_pending = old_pending.remove_keys(
                        old_stack.skip(before_stack.len() as int).to_set(),
                    );
                    proof {
                        assert(before_stack.len() == len);
                        assert(old_stack[len - 1] == top);
                        assert(!old_stack.skip(len as int).to_set().contains(top)) by {
                            if old_stack.skip(len as int).to_set().contains(top) {
                                let k = choose|k: int| 0 <= k < old_stack.skip(len as int).len() && #[trigger] old_stack.skip(len as int)[k] == top;
                                assert(old_stack[len + k] == top);
                                assert(old_stack[len - 1] < old_stack[len + k]);
                            }
                        }
                        assert(prior_pending.contains_key(top));
                        assert(old_pending.contains_key(top));
                        assert(old_pending[top] == isolate);
                    }
                    let ghost old_released = released@;
                    self.creation_stack.pop();
                    released.push(isolate);
                    proof {
                        assert forall|i: int| 0 <= i < released.len() implies #[trigger] released_at(
                            old_stack,
                            old_pending,
                            released@,
                            i,
                        ) by {
                            if i < old_released.len() {
                                assert(released_at(old_stack, old_pending, old_released, i));
                                assert(released@[i] == old_released[i]);
                            } else {
                                assert(old_stack.len() - 1 - i == len - 1);
                            }
                        }
                    }
                    proof {
                        assert(self.creation_stack@ =~= old_stack.take(
                            old_stack.len() - released.len(),
                        ));
                        assert(before_stack.last() == top);
                        let new_len = self.creation_stack@.len() as int;
                        let longer = old_stack.skip(new_len);
                        let shorter = old_stack.skip(new_len + 1);
                        assert(longer.to_set() =~= shorter.to_set().insert(top)) by {
                            assert(longer[0] == top);
                            assert forall|x: u64| #[trigger] longer.to_set().contains(x) implies shorter.to_set().insert(top).contains(x) by {
                                let k = choose|k: int| 0 <= k < longer.len() && #[trigger] longer[k] == x;
                                if k > 0 {
                                    assert(shorter[k - 1] == x);
                                }
                            }
                            assert forall|x: u64| #[trigger] shorter.to_set().insert(top).contains(x) implies longer.to_set().contains(x) by {
                                if x == top {
                                    assert(longer[0] == top);
                                } else {
                                    let k = choose|k: int| 0 <= k < shorter.len() && #[trigger] shorter[k] == x;
                                    assert(longer[k + 1] == x);
                                }
                            }
                        }
                        assert(self.pending@ =~= old_pending.remove_keys(
                            old_stack.skip(new_len).to_set(),
                        ));
                        assert forall|id: u64| #[trigger]
                            self.pending@.contains_key(id) implies self.creation_stack@.contains(
                            id,
                        ) by {
                            assert(before_pending.contains_key(id));
                            assert(before_stack.contains(id));
                            let i = choose|i: int| #![auto] 0 <= i < before_stack.len() && before_stack[i] == id;
                            assert(id != top);
                            assert(i != before_stack.len() - 1);
                            assert(self.creation_stack@[i] == id);
                        }
                    }
                },
            }
        }
        proof {
            let n = self.creation_stack@.len();
            if n > 0 {
                let top = self.creation_stack@[n - 1];
                assert(top == old_stack[n - 1]);
                assert(!old_stack.skip(n as int).to_set().contains(top)) by {
                    if old_stack.skip(n as int).to_set().contains(top) {
                        let k = choose|k: int| 0 <= k < old_stack.skip(n as int).len() && #[trigger] old_stack.skip(n as int)[k] == top;
                        assert(old_stack[n + k] == top);
                        assert(old_stack[n - 1] < old_stack[n + k]);
                    }
                }
            }
        }
        self.dropped_isolates = self.dropped_isolates + released.len();
        proof {
            let n = released@.len();
            assert(self.stack() == old(self).stack().take(old(self).stack().len() - n));
        }
        released
    }

    /// The number of isolates released so far.
    pub fn dropped_isolate_count(&self) -> (r: usize)
        ensures
            r == self.dropped(),
    {
        self.dropped_isolates
    }
}

/// Releases the isolates that can be released now (see
/// `IsolateRegistry::drop_ready_isolates`).
pub fn collect_ready_isolates<I>(registry: &mut IsolateRegistry<I>) -> (released: Vec<I>)
    requires
        old(registry).wf(),
    ensures
        final(registry).wf(),
        final(registry).stack() == old(registry).stack().take(
            old(registry).stack().len() - released.len(),
        ),
        released_newest_first(old(registry).stack(), old(registry).pending_view(), released@),
        final(registry).pending_view() == old(registry).pending_view().remove_keys(
            old(registry).stack().skip(final(registry).stack().len() as int).to_set(),
        ),
        final(registry).stack().len() > 0 ==> !final(registry).pending_view().contains_key(
            final(registry).stack().last(),
        ),
        released.len() < old(registry).stack().len() ==> !old(registry).pending_view().contains_key(
            old(registry).stack()[old(registry).stack().len() - 1 - released.len()],
        ),
        final(registry).dropped() == old(registry).dropped() + released.len(),
        registry_step(*old(registry), *final(registry)),
{
    registry.drop_ready_isolates()
}

/// Releases what can be released now when the registry can still be
/// reached (it cannot while the thread that owns it is shutting down):
/// `None` without a registry, else the isolates released.
pub fn try_collect_ready_isolates<I>(registry: Option<&mut IsolateRegistry<I>>) -> (released: Option<Vec<I>>)
    requires
        match registry {
            Some(r) => r.wf(),
            None => true,
        },
    ensures
        released is Some <==> registry is Some,
        match registry {
            Some(r) => released matches Some(v) && {
                &&& final(r).wf()
                &&& final(r).stack() == (*r).stack().take((*r).stack().len() - v.len())
                &&& released_newest_first((*r).stack(), (*r).pending_view(), v@)
                &&& final(r).pending_view() == (*r).pending_view().remove_keys(
                    (*r).stack().skip(final(r).stack().len() as int).to_set(),
                )
                &&& (final(r).stack().len() > 0 ==> !final(r).pending_view().contains_key(
                    final(r).stack().last(),
                ))
                &&& (v.len() < (*r).stack().len() ==> !(*r).pending_view().contains_key(
                    (*r).stack()[(*r).stack().len() - 1 - v.len()],
                ))
                &&& final(r).dropped() == (*r).dropped() + v.len()
                &&& registry_step(*r, *final(r))
            },
            None => true,
        },
{
    match registry {
        Some(r) => Some(r.drop_ready_isolates()),
        None => None,
    }
}

/// Releasing twice in a row releases nothing the second time: once the
/// newest isolate left is not retired (or none is left), the release stops
/// before it.
pub proof fn release_is_idempotent<I>(stack: Seq<u64>, pending: Map<u64, I>, released: Seq<I>)
    requires
        released_newest_first(stack, pending, released),
        stack.len() > 0 ==> !pending.contains_key(stack.last()),
    ensures
        released.len() == 0,
{
    if released.len() > 0 {
        assert(released_at(stack, pending, released, 0));
    }
}

/// The number of isolates the registry has released.
pub fn dropped_isolate_count<I>(registry: &IsolateRegistry<I>) -> (r: usize)
    ensures
        r == registry.dropped(),
{
    registry.dropped_isolate_count()
}

/// Whether a garbage collection callback phase is the end of a collection,
/// when retired isolates are released.
pub fn is_gc_stop_phase(phase: &str) -> (r: bool)
    ensures
        r == (phase@ == "stop"@),
{
    str_eq(phase, "stop")
}

/// The number of isolates released between two readings of the count (zero
/// if the count went down).
pub fn released_since(before: usize, after: usize) -> (r: usize)
    ensures
        r == (if after >= before {
            (after - before) as usize
        } else {
            0
        }),
{
    after.saturating_sub(before)
}

/// Whether an installed garbage collection callback is this library's: its
/// module and name, where they can be read, are those of the callback about
/// to be installed.
pub fn is_installed_gc_callback(module: &str, name: &str, installed_module: Option<&str>, installed_name: Option<&str>) -> (r: bool)
    ensures
        r == match (installed_module, installed_name) {
            (Some(m), Some(n)) => m@ == module@ && n@ == name@,
            _ => false,
        },
{
    match (installed_module, installed_name) {
        (Some(m), Some(n)) => str_eq(m, module) && str_eq(n, name),
        _ => false,
    }
}

/// The source of script ids handed to the engine.
pub struct ScriptIdCounter {
    next: i32,
}

impl ScriptIdCounter {
    /// The id the counter hands out next.
    pub closed spec fn next_value(&self) -> i32 {
        self.next
    }

    /// A counter starting at 1.
    pub fn new() -> (c: Self)
        ensures
            c.next_value() == 1,
    {
        ScriptIdCounter { next: 1 }
    }
}

/// The successor of a script id, wrapping from `i32::MAX` to `i32::MIN` as an
/// atomic fetch-and-add does.
pub open spec fn wrapping_successor(v: i32) -> i32 {
    if v == i32::MAX {
        i32::MIN
    } else {
        (v + 1) as i32
    }
}

/// Hands out the next script id.
pub fn next_script_id(counter: &mut ScriptIdCounter) -> (id: i32)
    ensures
        id == old(counter).next_value(),
        final(counter).next_value() == wrapping_successor(id),
{
    let id = counter.next;
    counter.next = if id == i32::MAX {
        i32::MIN
    } else {
        id + 1
    };
    id
}

/// Forgets the host functions with the given ids.
pub fn unregister_host_functions<F>(registry: &mut HashMap<u64, F>, ids: &Vec<u64>)
    ensures
        final(registry)@ == old(registry)@.remove_keys(ids@.to_set()),
{
    if ids.len() == 0 {
        assert(ids@.to_set() =~= Set::<u64>::empty());
        assert(registry@ =~= old(registry)@.remove_keys(ids@.to_set()));
        return;
    }
    let n = ids.len();
    for i in 0..n
        invariant
            n == ids@.len(),
            registry@ == old(registry)@.remove_keys(ids@.take(i as int).to_set()),
    {
        registry.remove(&ids[i]);
        proof {
            assert(ids@.take(i + 1) =~= ids@.take(i as int).push(ids@[i as int]));
            ids@.take(i as int).lemma_push_to_set_commute(ids@[i as int]);
        }
        assert(registry@ =~= old(registry)@.remove_keys(ids@.take(i + 1).to_set()));
    }
    assert(ids@.take(n as int) =~= ids@);
}

/// Registers a host function under the next id, and advances the id.
pub fn register_host_function<F>(registry: &mut HashMap<u64, F>, next_id: &mut u64, function: F) -> (id: u64)
    requires
        *old(next_id) < u64::MAX,
    ensures
        id == *old(next_id),
        *final(next_id) == id + 1,
        final(registry)@ == old(registry)@.insert(id, function),
{
    let id = *next_id;
    *next_id = id + 1;
    registry.insert(id, function);
    id
}

/// The host function registered under an id.
pub fn get_host_function<F>(registry: &HashMap<u64, F>, id: u64) -> (r: Option<&F>)
    ensures
        match r {
            Some(f) => registry@.contains_key(id) && *f == registry@[id],
            None => !registry@.contains_key(id),
        },
{
    registry.get(&id)
}

/// A host-owned payload behind an engine `External` value.
pub struct RegisteredExternal<T> {
    /// The id shown to the host.
    pub id: u64,
    pub payload: T,
    /// The isolate the external belongs to.
    pub isolate_id: u64,
}

/// Registers a payload behind the token the engine's `External` holds,
/// under the next external id, and advances the id.
pub fn register_external<T>(
    registry: &mut HashMap<usize, RegisteredExternal<T>>,
    next_id: &mut u64,
    token: usize,
    payload: T,
    isolate_id: u64,
) -> (id: u64)
    requires
        *old(next_id) < u64::MAX,
    ensures
        id == *old(next_id),
        *final(next_id) == id + 1,
        final(registry)@ == old(registry)@.insert(token, RegisteredExternal { id, payload, isolate_id }),
{
    let id = *next_id;
    *next_id = id + 1;
    registry.insert(token, RegisteredExternal { id, payload, isolate_id });
    id
}

/// The external id registered behind a token.
pub fn external_id<T>(registry: &HashMap<usize, RegisteredExternal<T>>, token: usize) -> (r: Option<u64>)
    ensures
        match r {
            Some(id) => registry@.contains_key(token) && id == registry@[token].id,
            None => !registry@.contains_key(token),
        },
{
    match registry.get(&token) {
        Some(entry) => Some(entry.id),
        None => None,
    }
}

/// The payload registered behind a token.
pub fn external_payload<T>(registry: &HashMap<usize, RegisteredExternal<T>>, token: usize) -> (r: Option<&T>)
    ensures
        match r {
            Some(p) => registry@.contains_key(token) && *p == registry@[token].payload,
            None => !registry@.contains_key(token),
        },
{
    match registry.get(&token) {
        Some(entry) => Some(&entry.payload),
        None => None,
    }
}

/// What an isolate registered while it lived: its host functions and the
/// externals made through it.
pub struct IsolateResources {
    pub isolate_id: u64,
    pub host_function_ids: Vec<u64>,
    pub external_tokens: Vec<usize>,
}

impl IsolateResources {
    /// An isolate that registered nothing yet.
    pub fn new(isolate_id: u64) -> (r: Self)
        ensures
            r.isolate_id == isolate_id,
            r.host_function_ids@ == Seq::<u64>::empty(),
            r.external_tokens@ == Seq::<usize>::empty(),
    {
        IsolateResources { isolate_id, host_function_ids: Vec::new(), external_tokens: Vec::new() }
    }

    /// Records a host function of the isolate.
    pub fn track_host_function(&mut self, id: u64)
        ensures
            final(self).host_function_ids@ == old(self).host_function_ids@.push(id),
            final(self).external_tokens@ == old(self).external_tokens@,
            final(self).isolate_id == old(self).isolate_id,
    {
        self.host_function_ids.push(id);
    }

    /// Records an external made through the isolate.
    pub fn track_external(&mut self, token: usize)
        ensures
            final(self).external_tokens@ == old(self).external_tokens@.push(token),
            final(self).host_function_ids@ == old(self).host_function_ids@,
            final(self).isolate_id == old(self).isolate_id,
    {
        self.external_tokens.push(token);
    }

    /// Forgets what the isolate registered, when it goes away: its host
    /// functions, the externals made through it, and any other external
    /// registered for it.  Returns the tokens of the latter, whose memory the
    /// caller frees as well.
    pub fn release<F, T>(
        &self,
        functions: &mut HashMap<u64, F>,
        externals: &mut HashMap<usize, RegisteredExternal<T>>,
    ) -> (untracked: Vec<usize>)
        ensures
            final(functions)@ == old(functions)@.remove_keys(self.host_function_ids@.to_set()),
            forall|t: usize|
                #[trigger] final(externals)@.contains_key(t) <==> (old(externals)@.contains_key(t)
                    && !self.external_tokens@.contains(t) && old(externals)@[t].isolate_id
                    != self.isolate_id),
            forall|t: usize| #[trigger] final(externals)@.contains_key(t) ==> final(externals)@[t]
                == old(externals)@[t],
            untracked@.no_duplicates(),
            forall|t: usize|
                #[trigger] untracked@.contains(t) <==> (!self.external_tokens@.contains(t) && old(
                    externals,
                )@.contains_key(t) && old(externals)@[t].isolate_id == self.isolate_id),
    {
        unregister_host_functions(functions, &self.host_function_ids);
        unregister_externals(externals, &self.external_tokens);
        let ghost middle = externals@;
        let untracked = unregister_untracked_externals_for_isolate(externals, self.isolate_id);
        proof {
            assert forall|t: usize| #[trigger] externals@.contains_key(t) <==> (old(externals)@.contains_key(t)
                && !self.external_tokens@.contains(t) && old(externals)@[t].isolate_id
                != self.isolate_id) by {
                if self.external_tokens@.contains(t) {
                    assert(self.external_tokens@.to_set().contains(t));
                }
                if externals@.contains_key(t) {
                    assert(!untracked@.contains(t) || !untracked@.to_set().contains(t));
                    assert(!untracked@.to_set().contains(t));
                    assert(!self.external_tokens@.to_set().contains(t));
                }
                if old(externals)@.contains_key(t) && !self.external_tokens@.contains(t) && old(externals)@[t].isolate_id
                    != self.isolate_id {
                    assert(!self.external_tokens@.to_set().contains(t));
                    assert(middle.contains_key(t));
                    assert(!untracked@.contains(t));
                    assert(!untracked@.to_set().contains(t));
                }
            }
            assert forall|t: usize| #[trigger] untracked@.contains(t) <==> (!self.external_tokens@.contains(t)
                && old(externals)@.contains_key(t) && old(externals)@[t].isolate_id
                == self.isolate_id) by {
                if untracked@.contains(t) {
                    assert(middle.contains_key(t));
                    assert(!self.external_tokens@.to_set().contains(t));
                }
                if !self.external_tokens@.contains(t) && old(externals)@.contains_key(t) {
                    assert(!self.external_tokens@.to_set().contains(t));
                    assert(middle.contains_key(t));
                }
            }
        }
        untracked
    }
}

/// Removes every registered external of an isolate and returns their tokens,
/// so that the caller can free what the tokens point to.
pub fn unregister_untracked_externals_for_isolate<T>(
    registry: &mut HashMap<usize, RegisteredExternal<T>>,
    isolate_id: u64,
) -> (tokens: Vec<usize>)
    ensures
        tokens@.no_duplicates(),
        forall|t: usize|
            tokens@.contains(t) <==> (old(registry)@.contains_key(t) && old(registry)@[t].isolate_id
                == isolate_id),
        final(registry)@ == old(registry)@.remove_keys(tokens@.to_set()),
{
    let mut tokens: Vec<usize> = Vec::new();
    for entry in it: registry.iter()
        invariant
            it.seq() == vstd::std_specs::iter::IteratorSpec::remaining(
                &vstd::std_specs::hash::spec_hash_map_iter(&*registry),
            ),
            it.seq().no_duplicates(),
            tokens@.no_duplicates(),
            forall|t: usize|
                tokens@.contains(t) <==> exists|j: int|
                    0 <= j < it.index() && *it.seq()[j].0 == t && (*it.seq()[j].1).isolate_id
                        == isolate_id,
    {
        let (token, external) = entry;
        let ghost idx = it.index() as int;
        let ghost before = tokens@;
        assert(*token == *it.seq()[idx].0);
        assert(external.isolate_id == (*it.seq()[idx].1).isolate_id);
        if external.isolate_id == isolate_id {
            proof {
                if tokens@.contains(*token) {
                    let j = choose|j: int|
                        #![auto] 0 <= j < it.index() && *it.seq()[j].0 == *token && (*it.seq()[j].1).isolate_id
                            == isolate_id;
                    assert(registry@.contains_key(*it.seq()[j].0));
                    assert(it.seq()[j] == it.seq()[it.index() as int]);
                }
            }
            tokens.push(*token);
        }
        proof {
            assert forall|t: usize| tokens@.contains(t) implies exists|j: int|
                0 <= j < idx + 1 && *it.seq()[j].0 == t && (*it.seq()[j].1).isolate_id
                    == isolate_id by {
                if before.contains(t) {
                    let j = choose|j: int|
                        0 <= j < idx && *it.seq()[j].0 == t && (*it.seq()[j].1).isolate_id
                            == isolate_id;
                    assert(0 <= j < idx + 1);
                } else {
                    assert(tokens@ == before.push(*token));
                    assert(t == *token);
                    assert(*it.seq()[idx].0 == t && (*it.seq()[idx].1).isolate_id == isolate_id);
                }
            }
            assert forall|t: usize| (exists|j: int|
                0 <= j < idx + 1 && *it.seq()[j].0 == t && (*it.seq()[j].1).isolate_id
                    == isolate_id) implies tokens@.contains(t) by {
                let j = choose|j: int|
                    0 <= j < idx + 1 && *it.seq()[j].0 == t && (*it.seq()[j].1).isolate_id
                        == isolate_id;
                if j < idx {
                    assert(before.contains(t));
                    assert(tokens@.contains(t)) by {
                        let k = choose|k: int| 0 <= k < before.len() && #[trigger] before[k] == t;
                        assert(tokens@[k] == t);
                    }
                } else {
                    assert(tokens@.last() == t);
                    assert(tokens@[tokens@.len() - 1] == t);
                }
            }
        }
    }
    let ghost seq = vstd::std_specs::iter::IteratorSpec::remaining(
        &vstd::std_specs::hash::spec_hash_map_iter(&*registry),
    );
    assert forall|t: usize|
        tokens@.contains(t) <==> (old(registry)@.contains_key(t) && old(registry)@[t].isolate_id
            == isolate_id) by {
        if old(registry)@.contains_key(t) && old(registry)@[t].isolate_id == isolate_id {
            assert(seq.contains((&t, &registry@[t])));
        }
    }
    unregister_externals(registry, &tokens);
    tokens
}

/// Removes the registered externals with the given tokens.
pub fn unregister_externals<T>(registry: &mut HashMap<usize, RegisteredExternal<T>>, tokens: &Vec<usize>)
    ensures
        final(registry)@ == old(registry)@.remove_keys(tokens@.to_set()),
{
    let n = tokens.len();
    for i in 0..n
        invariant
            n == tokens@.len(),
            registry@ == old(registry)@.remove_keys(tokens@.take(i as int).to_set()),
    {
        registry.remove(&tokens[i]);
        proof {
            assert(tokens@.take(i + 1) =~= tokens@.take(i as int).push(tokens@[i as int]));
            tokens@.take(i as int).lemma_push_to_set_commute(tokens@[i as int]);
        }
        assert(registry@ =~= old(registry)@.remove_keys(tokens@.take(i + 1).to_set()));
    }
    assert(tokens@.take(n as int) =~= tokens@);
}

/// The timeout that actually arms an execution watchdog: a positive number of
/// milliseconds; zero and no timeout both mean none.
pub fn effective_timeout(timeout_ms: Option<u64>) -> (r: Option<u64>)
    ensures
        r == match timeout_ms {
            Some(t) => if t > 0 { Some(t) } else { None },
            None => None,
        },
{
    match timeout_ms {
        Some(t) => if t > 0 {
            Some(t)
        } else {
            None
        },
        None => None,
    }
}

/// ShadowRealm was requested after the engine was initialised without it.
#[derive(Clone, Copy, Debug, PartialEq, Eq, Structural)]
pub struct ShadowRealmTooLate;

/// Records a request for ShadowRealm support.  The engine's flags are
/// process-wide and fixed at initialisation, so the request fails once the
/// engine is initialised without it; otherwise the request is recorded.
pub fn request_shadow_realm(initialized: bool, requested: &mut bool) -> (r: Result<(), ShadowRealmTooLate>)
    ensures
        r is Err <==> (initialized && !*old(requested)),
        r is Err ==> *final(requested) == *old(requested),
        r is Ok ==> *final(requested),
{
    if initialized && !*requested {
        return Err(ShadowRealmTooLate);
    }
    *requested = true;
    Ok(())
}

/// The engine flags set at initialisation.
pub open spec fn engine_flags_spec(shadow_realm: bool) -> Seq<char> {
    if shadow_realm {
        "--expose_gc"@ + " --harmony-shadow-realm"@
    } else {
        "--expose_gc"@
    }
}

/// The engine flags set at initialisation: garbage collection is exposed, and
/// ShadowRealm is enabled when it was requested.
pub fn engine_flags(shadow_realm: bool) -> (flags: String)
    ensures
        flags@ == engine_flags_spec(shadow_realm),
{
    let mut flags = String::from_str("--expose_gc");
    if shadow_realm {
        append_str(&mut flags, " --harmony-shadow-realm");
    }
    flags
}

} // verus!
