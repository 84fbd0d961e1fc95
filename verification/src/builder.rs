//! The context builder: what it gathers before it builds a context, and the
//! rule that an isolate is used for one context only.
use vstd::prelude::*;
use crate::host_api::{HostAPIDefinition, definition_kind, is_copy_of};
use crate::profile::BaseProfile;
use crate::settings::{MicrotasksPolicy, UnknownSetting, parse_microtasks_policy, microtasks_policy_named};

verus! {

/// An isolate, scope or builder was used after it had been consumed.
#[derive(Clone, Copy, Debug, PartialEq, Eq, Structural)]
pub struct AlreadyUsed;

/// Takes the isolate out of its holder, which can then no longer be used:
/// an isolate makes one scope, context or builder.
pub fn take_isolate<I>(holder: &mut Option<I>) -> (r: Result<I, AlreadyUsed>)
    ensures
        *final(holder) is None,
        match *old(holder) {
            Some(i) => r == Ok::<I, AlreadyUsed>(i),
            None => r == Err::<I, AlreadyUsed>(AlreadyUsed),
        },
{
    match holder.take() {
        Some(i) => Ok(i),
        None => Err(AlreadyUsed),
    }
}

/// What a context builder gathers: the isolate (until the context is
/// built), the snapshot context to start from, globals, host functions,
/// host classes, host APIs and the microtask policy.  `I`, `G`, `F`, `K`
/// and `H` are the host's isolate, global value, host function, host class
/// and Python handle.
pub struct ContextBuilder<I, G, F, K, H> {
    isolate: Option<I>,
    snapshot_index: Option<usize>,
    globals: Vec<(String, G)>,
    host_functions: Vec<F>,
    host_classes: Vec<K>,
    host_apis: Vec<HostAPIDefinition<H>>,
    microtasks_policy: Option<MicrotasksPolicy>,
}

impl<I, G, F: Clone, K: Clone, H: Clone> ContextBuilder<I, G, F, K, H> {
    /// Whether the builder can still build.
    pub closed spec fn alive(&self) -> bool {
        self.isolate is Some
    }

    /// The snapshot context index to build from, if any.
    pub closed spec fn spec_snapshot_index(&self) -> Option<usize> {
        self.snapshot_index
    }

    /// The globals to set, in the order they were set.
    pub closed spec fn spec_globals(&self) -> Seq<(String, G)> {
        self.globals@
    }

    /// The names of the globals, in the order they were set.
    pub open spec fn global_names(&self) -> Seq<Seq<char>> {
        self.spec_globals().map_values(|g: (String, G)| g.0@)
    }

    /// The host functions gathered, in order.
    pub closed spec fn functions(&self) -> Seq<F> {
        self.host_functions@
    }

    /// The host classes gathered, in order.
    pub closed spec fn classes(&self) -> Seq<K> {
        self.host_classes@
    }

    /// The host APIs gathered, in order.
    pub closed spec fn apis(&self) -> Seq<HostAPIDefinition<H>> {
        self.host_apis@
    }

    /// The kinds of the host APIs gathered, in order.
    pub open spec fn api_kinds(&self) -> Seq<crate::host_api::HostAPIKind> {
        self.apis().map_values(|a: HostAPIDefinition<H>| definition_kind(a))
    }

    /// The microtask policy to set, if any.
    pub closed spec fn spec_microtasks_policy(&self) -> Option<MicrotasksPolicy> {
        self.microtasks_policy
    }

    /// Whether two builders hold the same globals, host functions, host
    /// classes and host APIs.
    pub open spec fn same_gathered(&self, other: &Self) -> bool {
        &&& self.spec_globals() == other.spec_globals()
        &&& self.functions() == other.functions()
        &&& self.classes() == other.classes()
        &&& self.apis() == other.apis()
    }

    /// Whether two builders agree on the isolate's presence, the snapshot
    /// index and the microtask policy.
    pub open spec fn same_settings(&self, other: &Self) -> bool {
        &&& self.alive() == other.alive()
        &&& self.spec_snapshot_index() == other.spec_snapshot_index()
        &&& self.spec_microtasks_policy() == other.spec_microtasks_policy()
    }

    /// A builder for an isolate, with nothing gathered yet.
    pub fn from_isolate(isolate: I) -> (r: Self)
        ensures
            r.alive(),
            r.spec_snapshot_index() is None,
            r.spec_globals() == Seq::<(String, G)>::empty(),
            r.functions() == Seq::<F>::empty(),
            r.classes() == Seq::<K>::empty(),
            r.apis() == Seq::<HostAPIDefinition<H>>::empty(),
            r.spec_microtasks_policy() is None,
    {
        ContextBuilder {
            isolate: Some(isolate),
            snapshot_index: None,
            globals: Vec::new(),
            host_functions: Vec::new(),
            host_classes: Vec::new(),
            host_apis: Vec::new(),
            microtasks_policy: None,
        }
    }

    /// Whether the builder can still build.
    pub fn is_alive(&self) -> (r: bool)
        ensures
            r == self.alive(),
    {
        self.isolate.is_some()
    }

    /// Queues a global to set once the context is built.
    pub fn set_global(&mut self, name: &str, value: G)
        ensures
            final(self).spec_globals().len() == old(self).spec_globals().len() + 1,
            final(self).spec_globals().drop_last() == old(self).spec_globals(),
            final(self).spec_globals().last().0@ == name@,
            final(self).spec_globals().last().1 == value,
            final(self).global_names() == old(self).global_names().push(name@),
            final(self).functions() == old(self).functions(),
            final(self).classes() == old(self).classes(),
            final(self).apis() == old(self).apis(),
            final(self).same_settings(&*old(self)),
    {
        self.globals.push((name.to_string(), value));
        assert(self.spec_globals().drop_last() =~= old(self).spec_globals());
        assert(self.global_names() =~= old(self).global_names().push(name@));
    }

    /// Adds a host function.
    pub fn add_host_function(&mut self, definition: F)
        ensures
            final(self).functions() == old(self).functions().push(definition),
            final(self).spec_globals() == old(self).spec_globals(),
            final(self).classes() == old(self).classes(),
            final(self).apis() == old(self).apis(),
            final(self).same_settings(&*old(self)),
    {
        self.host_functions.push(definition);
    }

    /// Adds a host class.
    pub fn add_host_class(&mut self, definition: K)
        ensures
            final(self).classes() == old(self).classes().push(definition),
            final(self).spec_globals() == old(self).spec_globals(),
            final(self).functions() == old(self).functions(),
            final(self).apis() == old(self).apis(),
            final(self).same_settings(&*old(self)),
    {
        self.host_classes.push(definition);
    }

    /// Copies everything a profile holds into the builder, after what is
    /// there already: copies of its host functions, host classes and host
    /// APIs, in the profile's order.
    pub fn use_profile(&mut self, profile: &BaseProfile<F, K, H>)
        ensures
            final(self).functions().len() == old(self).functions().len() + profile.functions().len(),
            forall|i: int| 0 <= i < old(self).functions().len() ==> #[trigger] final(self).functions()[i]
                == old(self).functions()[i],
            forall|j: int| 0 <= j < profile.functions().len() ==> cloned(
                #[trigger] profile.functions()[j],
                final(self).functions()[old(self).functions().len() + j],
            ),
            final(self).classes().len() == old(self).classes().len() + profile.classes().len(),
            forall|i: int| 0 <= i < old(self).classes().len() ==> #[trigger] final(self).classes()[i]
                == old(self).classes()[i],
            forall|j: int| 0 <= j < profile.classes().len() ==> cloned(
                #[trigger] profile.classes()[j],
                final(self).classes()[old(self).classes().len() + j],
            ),
            final(self).api_kinds() == old(self).api_kinds() + profile.apis().map_values(
                |a: HostAPIDefinition<H>| definition_kind(a),
            ),
            final(self).apis().len() == old(self).apis().len() + profile.apis().len(),
            forall|i: int| 0 <= i < old(self).apis().len() ==> #[trigger] final(self).apis()[i]
                == old(self).apis()[i],
            forall|j: int| 0 <= j < profile.apis().len() ==> is_copy_of(
                #[trigger] profile.apis()[j],
                final(self).apis()[old(self).apis().len() + j],
            ),
            final(self).spec_globals() == old(self).spec_globals(),
            final(self).same_settings(&*old(self)),
    {
        let functions = profile.host_functions();
        let n0 = self.host_functions.len();
        for i in 0..functions.len()
            invariant
                n0 == old(self).host_functions@.len(),
                self.host_functions@.len() == n0 + i,
                forall|k: int| 0 <= k < n0 ==> #[trigger] self.host_functions@[k] == old(self).host_functions@[k],
                forall|j: int| 0 <= j < i ==> cloned(#[trigger] functions@[j], self.host_functions@[n0 + j]),
                self.host_classes@ == old(self).host_classes@,
                self.host_apis@ == old(self).host_apis@,
                self.globals@ == old(self).globals@,
                self.isolate == old(self).isolate,
                self.snapshot_index == old(self).snapshot_index,
                self.microtasks_policy == old(self).microtasks_policy,
        {
            let copy = functions[i].clone();
            self.host_functions.push(copy);
        }
        let classes = profile.host_classes();
        let c0 = self.host_classes.len();
        for i in 0..classes.len()
            invariant
                c0 == old(self).host_classes@.len(),
                self.host_classes@.len() == c0 + i,
                forall|k: int| 0 <= k < c0 ==> #[trigger] self.host_classes@[k] == old(self).host_classes@[k],
                forall|j: int| 0 <= j < i ==> cloned(#[trigger] classes@[j], self.host_classes@[c0 + j]),
                self.host_functions@.len() == n0 + functions@.len(),
                forall|k: int| 0 <= k < n0 ==> #[trigger] self.host_functions@[k] == old(self).host_functions@[k],
                forall|j: int| 0 <= j < functions@.len() ==> cloned(#[trigger] functions@[j], self.host_functions@[n0 + j]),
                self.host_apis@ == old(self).host_apis@,
                self.globals@ == old(self).globals@,
                self.isolate == old(self).isolate,
                self.snapshot_index == old(self).snapshot_index,
                self.microtasks_policy == old(self).microtasks_policy,
        {
            let copy = classes[i].clone();
            self.host_classes.push(copy);
        }
        let apis = profile.host_apis();
        let a0 = self.host_apis.len();
        let ghost kinds = apis@.map_values(|a: HostAPIDefinition<H>| definition_kind(a));
        for i in 0..apis.len()
            invariant
                kinds == apis@.map_values(|a: HostAPIDefinition<H>| definition_kind(a)),
                self.host_functions@.len() == n0 + functions@.len(),
                forall|k: int| 0 <= k < n0 ==> #[trigger] self.host_functions@[k] == old(self).host_functions@[k],
                forall|j: int| 0 <= j < functions@.len() ==> cloned(#[trigger] functions@[j], self.host_functions@[n0 + j]),
                self.host_classes@.len() == c0 + classes@.len(),
                forall|k: int| 0 <= k < c0 ==> #[trigger] self.host_classes@[k] == old(self).host_classes@[k],
                forall|j: int| 0 <= j < classes@.len() ==> cloned(#[trigger] classes@[j], self.host_classes@[c0 + j]),
                self.api_kinds() == old(self).api_kinds() + kinds.take(i as int),
                self.host_apis@.len() == a0 + i,
                forall|k: int| 0 <= k < a0 ==> #[trigger] self.host_apis@[k] == old(self).host_apis@[k],
                forall|j: int| 0 <= j < i ==> is_copy_of(#[trigger] apis@[j], self.host_apis@[a0 + j]),
                self.globals@ == old(self).globals@,
                self.isolate == old(self).isolate,
                self.snapshot_index == old(self).snapshot_index,
                self.microtasks_policy == old(self).microtasks_policy,
        {
            let copy = apis[i].clone_ref();
            let ghost before = self.api_kinds();
            self.host_apis.push(copy);
            proof {
                assert(self.api_kinds() =~= before.push(definition_kind(copy)));
                assert(kinds.take(i + 1) =~= kinds.take(i as int).push(kinds[i as int]));
                assert(self.api_kinds() =~= old(self).api_kinds() + kinds.take(i + 1));
            }
        }
        assert(kinds.take(apis@.len() as int) =~= kinds);
    }

    /// Builds from a snapshot context instead of a fresh context.
    pub fn use_snapshot(&mut self, index: usize)
        ensures
            final(self).spec_snapshot_index() == Some(index),
            final(self).alive() == old(self).alive(),
            final(self).spec_microtasks_policy() == old(self).spec_microtasks_policy(),
            final(self).same_gathered(&*old(self)),
    {
        self.snapshot_index = Some(index);
    }

    /// Sets the microtask policy, "auto" or "explicit".
    pub fn set_microtasks_policy(&mut self, policy: &str) -> (r: Result<(), UnknownSetting>)
        ensures
            r is Ok <==> microtasks_policy_named(policy@) is Some,
            r is Ok ==> final(self).spec_microtasks_policy() == microtasks_policy_named(policy@),
            r is Err ==> final(self).spec_microtasks_policy() == old(self).spec_microtasks_policy(),
            final(self).alive() == old(self).alive(),
            final(self).spec_snapshot_index() == old(self).spec_snapshot_index(),
            final(self).same_gathered(&*old(self)),
    {
        match parse_microtasks_policy(policy) {
            Ok(p) => {
                self.microtasks_policy = Some(p);
                Ok(())
            },
            Err(e) => Err(e),
        }
    }

    /// Takes the isolate to build the context with; a builder builds once.
    pub fn take_isolate_for_build(&mut self) -> (r: Result<I, AlreadyUsed>)
        ensures
            r is Ok <==> old(self).alive(),
            !final(self).alive(),
            final(self).same_gathered(&*old(self)),
            final(self).spec_snapshot_index() == old(self).spec_snapshot_index(),
            final(self).spec_microtasks_policy() == old(self).spec_microtasks_policy(),
    {
        take_isolate(&mut self.isolate)
    }

    /// The snapshot context index to build from, if any.
    pub fn snapshot_index(&self) -> (r: Option<usize>)
        ensures
            r == self.spec_snapshot_index(),
    {
        self.snapshot_index
    }

    /// The microtask policy to set, if any.
    pub fn microtasks_policy(&self) -> (r: Option<MicrotasksPolicy>)
        ensures
            r == self.spec_microtasks_policy(),
    {
        self.microtasks_policy
    }

    /// The globals to set, in order.
    pub fn globals(&self) -> (r: &Vec<(String, G)>)
        ensures
            r@ == self.spec_globals(),
    {
        &self.globals
    }

    /// The host functions to install, in order.
    pub fn host_functions(&self) -> (r: &Vec<F>)
        ensures
            r@ == self.functions(),
    {
        &self.host_functions
    }

    /// The host classes to install, in order.
    pub fn host_classes(&self) -> (r: &Vec<K>)
        ensures
            r@ == self.classes(),
    {
        &self.host_classes
    }

    /// The host APIs to install, in order.
    pub fn host_apis(&self) -> (r: &Vec<HostAPIDefinition<H>>)
        ensures
            r@ == self.apis(),
    {
        &self.host_apis
    }
}

} // verus!
