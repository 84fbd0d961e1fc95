//! ECMAScript modules: their status, how the imports of a module are
//! resolved (from the imports given at instantiation, then from the module
//! loader), the loader's cache, import attributes and dynamic imports.
//! `M` is the host's handle for a compiled module.
use vstd::prelude::*;
use vstd::hash_map::StringHashMap;
use std::collections::HashMap;
use crate::text::{append_str, str_eq};

verus! {

broadcast use vstd::hash_map::group_hash_map_axioms, vstd::std_specs::hash::group_hash_axioms;

/// The engine's status of a module.
#[derive(Clone, Copy, Debug, PartialEq, Eq, Structural)]
pub enum ModuleStatus {
    Uninstantiated,
    Instantiating,
    Instantiated,
    Evaluating,
    Evaluated,
    Errored,
}

/// The name of a module status.
pub open spec fn status_text(s: ModuleStatus) -> Seq<char> {
    match s {
        ModuleStatus::Uninstantiated => "uninstantiated"@,
        ModuleStatus::Instantiating => "instantiating"@,
        ModuleStatus::Instantiated => "instantiated"@,
        ModuleStatus::Evaluating => "evaluating"@,
        ModuleStatus::Evaluated => "evaluated"@,
        ModuleStatus::Errored => "errored"@,
    }
}

/// The name of a module status.
pub fn module_status_name(status: ModuleStatus) -> (r: &'static str)
    ensures
        r@ == status_text(status),
{
    match status {
        ModuleStatus::Uninstantiated => "uninstantiated",
        ModuleStatus::Instantiating => "instantiating",
        ModuleStatus::Instantiated => "instantiated",
        ModuleStatus::Evaluating => "evaluating",
        ModuleStatus::Evaluated => "evaluated",
        ModuleStatus::Errored => "errored",
    }
}

/// A module's namespace was read before it was instantiated.
#[derive(Clone, Copy, Debug, PartialEq, Eq, Structural)]
pub struct NotInstantiated;

/// Whether a module's namespace can be read: once it is instantiated.
pub fn check_namespace_readable(status: ModuleStatus) -> (r: Result<(), NotInstantiated>)
    ensures
        r is Err <==> (status == ModuleStatus::Uninstantiated || status == ModuleStatus::Instantiating),
{
    match status {
        ModuleStatus::Uninstantiated | ModuleStatus::Instantiating => Err(NotInstantiated),
        _ => Ok(()),
    }
}

/// A module of another isolate was used.
#[derive(Clone, Copy, Debug, PartialEq, Eq, Structural)]
pub struct ForeignModule;

/// Checks that a module belongs to the isolate it is used with.
pub fn ensure_compatible(module_isolate_id: u64, isolate_id: u64) -> (r: Result<(), ForeignModule>)
    ensures
        r is Ok <==> module_isolate_id == isolate_id,
{
    if module_isolate_id == isolate_id {
        Ok(())
    } else {
        Err(ForeignModule)
    }
}

/// The modules and sources a module's imports are resolved from while it
/// is instantiated, by specifier, with the specifiers of the modules in the
/// order they were first recorded.
#[verifier::reject_recursive_types(M)]
pub struct ModuleResolver<M> {
    sources: StringHashMap<String>,
    modules: StringHashMap<M>,
    order: Vec<String>,
}

/// What an import of a module resolves to first.
pub enum ResolveStep<M> {
    /// A module that is known already.
    Known(M),
    /// A source to compile under the specifier.
    Compile(String),
    /// Neither: the module loader is asked.
    AskLoader,
}

impl<M: Clone> ModuleResolver<M> {
    /// The sources by specifier.
    pub closed spec fn source_map(&self) -> Map<Seq<char>, Seq<char>> {
        self.sources@.map_values(|s: String| s@)
    }

    /// The modules by specifier.
    pub closed spec fn module_map(&self) -> Map<Seq<char>, M> {
        self.modules@
    }

    /// The specifiers of the modules, in the order they were first recorded.
    pub closed spec fn recorded(&self) -> Seq<Seq<char>> {
        self.order@.map_values(|s: String| s@)
    }

    /// The resolver's invariant: each module is recorded once, in order.
    pub closed spec fn wf(&self) -> bool {
        &&& self.recorded().no_duplicates()
        &&& self.recorded().to_set() == self.modules@.dom()
    }

    /// A resolver that knows only the module being instantiated.
    pub fn new(specifier: String, module: M) -> (r: Self)
        ensures
            r.wf(),
            r.module_map() == Map::<Seq<char>, M>::empty().insert(specifier@, module),
            r.source_map() == Map::<Seq<char>, Seq<char>>::empty(),
            r.recorded() == seq![specifier@],
    {
        let mut modules = StringHashMap::new();
        let mut order: Vec<String> = Vec::new();
        order.push(specifier.clone());
        modules.insert(specifier, module);
        let r = ModuleResolver { sources: StringHashMap::new(), modules, order };
        proof {
            assert(r.recorded() =~= seq![r.order@[0]@]);
            assert(r.recorded().to_set() =~= r.modules@.dom()) by {
                assert(r.recorded() =~= seq![r.order@[0]@]);
                assert(r.recorded()[0] == r.order@[0]@);
                assert(r.recorded().contains(r.order@[0]@));
                assert(r.recorded().to_set().contains(r.order@[0]@));
            }
            assert(r.source_map() =~= Map::<Seq<char>, Seq<char>>::empty());
        }
        r
    }

    /// Records a module under a specifier, replacing any other.
    pub fn add_module(&mut self, specifier: String, module: M)
        requires
            old(self).wf(),
        ensures
            final(self).wf(),
            final(self).module_map() == old(self).module_map().insert(specifier@, module),
            final(self).source_map() == old(self).source_map(),
            old(self).module_map().contains_key(specifier@) ==> final(self).recorded() == old(
                self,
            ).recorded(),
            !old(self).module_map().contains_key(specifier@) ==> final(self).recorded() == old(
                self,
            ).recorded().push(specifier@),
    {
        if !self.modules.contains_key(specifier.as_str()) {
            self.order.push(specifier.clone());
            proof {
                assert(self.recorded() =~= old(self).recorded().push(specifier@));
                assert(!old(self).recorded().contains(specifier@)) by {
                    if old(self).recorded().contains(specifier@) {
                        assert(old(self).recorded().to_set().contains(specifier@));
                    }
                }
                old(self).recorded().lemma_push_to_set_commute(specifier@);
                assert(self.recorded().no_duplicates()) by {
                    assert forall|i: int, j: int|
                        0 <= i < j < self.recorded().len() implies self.recorded()[i] != self.recorded()[j] by {
                        if j == self.recorded().len() - 1 {
                            assert(self.recorded()[j] == specifier@);
                            assert(old(self).recorded().contains(self.recorded()[i]));
                        } else {
                            assert(self.recorded()[i] == old(self).recorded()[i]);
                            assert(self.recorded()[j] == old(self).recorded()[j]);
                        }
                    }
                }
            }
        }
        self.modules.insert(specifier, module);
        proof {
            if old(self).modules@.contains_key(specifier@) {
                assert(self.recorded() =~= old(self).recorded());
            }
            assert(self.recorded().to_set() =~= self.modules@.dom());
        }
    }

    /// Records a source under a specifier, replacing any other.
    pub fn add_source(&mut self, specifier: String, source: String)
        requires
            old(self).wf(),
        ensures
            final(self).wf(),
            final(self).source_map() == old(self).source_map().insert(specifier@, source@),
            final(self).module_map() == old(self).module_map(),
            final(self).recorded() == old(self).recorded(),
    {
        self.sources.insert(specifier, source);
        proof {
            assert(self.source_map() =~= old(self).source_map().insert(specifier@, source@));
        }
    }

    /// How an import is resolved first: a known module, then a source given
    /// for it, then the module loader.
    pub fn resolve_step(&self, specifier: &str) -> (r: ResolveStep<M>)
        ensures
            self.module_map().contains_key(specifier@) ==> (r matches ResolveStep::Known(m)
                && cloned(self.module_map()[specifier@], m)),
            !self.module_map().contains_key(specifier@) && self.source_map().contains_key(specifier@)
                ==> (r matches ResolveStep::Compile(s) && s@ == self.source_map()[specifier@]),
            !self.module_map().contains_key(specifier@) && !self.source_map().contains_key(specifier@)
                ==> r is AskLoader,
    {
        match self.modules.get(specifier) {
            Some(m) => ResolveStep::Known(m.clone()),
            None => match self.sources.get(specifier) {
                Some(s) => ResolveStep::Compile(s.clone()),
                None => ResolveStep::AskLoader,
            },
        }
    }

    /// The modules the instantiated module depends on: every module recorded
    /// except the one under its own specifier, in the order recorded.
    pub fn dependencies(&self, own: &str) -> (r: Vec<M>)
        requires
            self.wf(),
        ensures
            r@.len() == others(self.recorded(), own@).len(),
            forall|i: int|
                0 <= i < r@.len() ==> cloned(
                    self.module_map()[#[trigger] others(self.recorded(), own@)[i]],
                    r@[i],
                ),
    {
        let mut out: Vec<M> = Vec::new();
        let mut i: usize = 0;
        while i < self.order.len()
            invariant
                self.wf(),
                i <= self.order@.len(),
                out@.len() == others(self.recorded().take(i as int), own@).len(),
                forall|j: int|
                    0 <= j < out@.len() ==> cloned(
                        self.module_map()[#[trigger] others(self.recorded().take(i as int), own@)[j]],
                        out@[j],
                    ),
            decreases self.order@.len() - i,
        {
            let ghost before = self.recorded().take(i as int);
            let ghost after = self.recorded().take(i + 1);
            let ghost key = self.order@[i as int]@;
            let ghost prev_out = out@;
            proof {
                assert(after =~= before.push(key));
                assert(after.drop_last() =~= before);
                assert(after.last() == key);
                assert(self.recorded()[i as int] == key);
                assert(self.recorded().contains(key));
                assert(self.recorded().to_set().contains(key));
                assert(self.modules@.contains_key(key));
            }
            if !str_eq(self.order[i].as_str(), own) {
                proof {
                    assert(others(after, own@) =~= others(before, own@).push(key));
                }
                let m = self.modules.get(self.order[i].as_str()).unwrap();
                let c = m.clone();
                out.push(c);
                proof {
                    assert forall|j: int|
                        0 <= j < out@.len() implies cloned(
                            self.module_map()[#[trigger] others(after, own@)[j]],
                            out@[j],
                        ) by {
                        if j < prev_out.len() {
                            assert(out@[j] == prev_out[j]);
                            assert(others(after, own@)[j] == others(before, own@)[j]);
                        } else {
                            assert(others(after, own@)[j] == key);
                            assert(out@[j] == c);
                        }
                    }
                }
            } else {
                proof {
                    assert(others(after, own@) =~= others(before, own@));
                }
            }
            i = i + 1;
        }
        proof {
            assert(self.recorded().take(self.order@.len() as int) =~= self.recorded());
        }
        out
    }
}

/// The specifiers in `s` other than `own`, in order.
pub open spec fn others(s: Seq<Seq<char>>, own: Seq<char>) -> Seq<Seq<char>>
    decreases s.len(),
{
    if s.len() == 0 {
        Seq::empty()
    } else {
        let rest = others(s.drop_last(), own);
        if s.last() != own {
            rest.push(s.last())
        } else {
            rest
        }
    }
}

/// An entry of the imports given to `Module.instantiate`, as the host reads
/// it: a module (with its isolate), a source, or something else (with its
/// type's name).
pub enum ImportEntry<M> {
    Module { module: M, isolate_id: u64 },
    Source(String),
    Other { kind_name: String },
}

/// Why the imports given to `Module.instantiate` were refused.
pub enum ImportError {
    /// A module of another isolate.
    ForeignModule,
    /// An entry that is neither a source nor a module; the message says which.
    BadEntry(String),
}

/// The message for an import that is neither a source nor a module.
pub open spec fn bad_import_text(specifier: Seq<char>, kind_name: Seq<char>) -> Seq<char> {
    "Import '"@ + specifier + "' must be a source string or v8.Module, got '"@ + kind_name + "'."@
}

/// Whether an entry is acceptable for an isolate.
pub open spec fn entry_ok<M>(e: ImportEntry<M>, isolate_id: u64) -> bool {
    match e {
        ImportEntry::Module { isolate_id: i, .. } => i == isolate_id,
        ImportEntry::Source(_) => true,
        ImportEntry::Other { .. } => false,
    }
}

/// `e` is the error for the `i`-th import: a module of another isolate, or
/// an entry that is neither a source nor a module, named with its type.
pub open spec fn import_error_matches<M>(imports: Seq<(String, ImportEntry<M>)>, i: int, e: ImportError) -> bool {
    match e {
        ImportError::ForeignModule => imports[i].1 is Module,
        ImportError::BadEntry(m) => imports[i].1 matches ImportEntry::Other { kind_name } && m@
            == bad_import_text(imports[i].0@, kind_name@),
    }
}

/// Whether an import entry is accepted for an isolate.
fn entry_accepted<M>(entry: &ImportEntry<M>, isolate_id: u64) -> (r: bool)
    ensures
        r == entry_ok(*entry, isolate_id),
{
    match entry {
        ImportEntry::Module { isolate_id: i, .. } => *i == isolate_id,
        ImportEntry::Source(_) => true,
        ImportEntry::Other { .. } => false,
    }
}

/// The error for an import entry that is refused.
fn import_error<M>(key: &String, entry: &ImportEntry<M>) -> (e: ImportError)
    requires
        !(*entry is Source),
    ensures
        import_error_matches(seq![(*key, *entry)], 0, e),
{
    match entry {
        ImportEntry::Other { kind_name } => {
            let mut m = String::from_str("Import '");
            append_str(&mut m, key.as_str());
            append_str(&mut m, "' must be a source string or v8.Module, got '");
            append_str(&mut m, kind_name.as_str());
            append_str(&mut m, "'.");
            ImportError::BadEntry(m)
        },
        _ => ImportError::ForeignModule,
    }
}

/// The modules a resolver knows after the imports: the module being
/// instantiated, then each module import in order (a later one for a
/// specifier replaces an earlier one).
pub open spec fn imported_modules<M>(own: Seq<char>, module: M, imports: Seq<(String, ImportEntry<M>)>) -> Map<
    Seq<char>,
    M,
>
    decreases imports.len(),
{
    if imports.len() == 0 {
        Map::<Seq<char>, M>::empty().insert(own, module)
    } else {
        let prev = imported_modules(own, module, imports.drop_last());
        match imports.last().1 {
            ImportEntry::Module { module: m, .. } => prev.insert(imports.last().0@, m),
            _ => prev,
        }
    }
}

/// The sources a resolver knows after the imports: each source import in
/// order (a later one for a specifier replaces an earlier one).
pub open spec fn imported_sources<M>(imports: Seq<(String, ImportEntry<M>)>) -> Map<Seq<char>, Seq<char>>
    decreases imports.len(),
{
    if imports.len() == 0 {
        Map::<Seq<char>, Seq<char>>::empty()
    } else {
        let prev = imported_sources(imports.drop_last());
        match imports.last().1 {
            ImportEntry::Source(src) => prev.insert(imports.last().0@, src@),
            _ => prev,
        }
    }
}

/// Builds the resolver for instantiating a module: it knows the module
/// itself, then each import in order (a later entry for a specifier replaces
/// an earlier one).  The first entry that is a module of another isolate, or
/// neither a source nor a module, refuses the imports.
#[verifier::spinoff_prover]
pub fn import_resolver<M: Clone>(
    specifier: String,
    module: M,
    isolate_id: u64,
    imports: Vec<(String, ImportEntry<M>)>,
) -> (r: Result<ModuleResolver<M>, ImportError>)
    ensures
        (forall|i: int| 0 <= i < imports@.len() ==> entry_ok(#[trigger] imports@[i].1, isolate_id))
            <==> r is Ok,
        r matches Ok(res) ==> res.wf() && res.module_map() == imported_modules(specifier@, module, imports@)
            && res.source_map() == imported_sources(imports@),
        r matches Err(e) ==> exists|i: int|
            0 <= i < imports@.len() && !entry_ok(#[trigger] imports@[i].1, isolate_id) && (forall|
                j: int,
            | 0 <= j < i ==> entry_ok(#[trigger] imports@[j].1, isolate_id)) && import_error_matches(
                imports@,
                i,
                e,
            ),
{
    let ghost own = specifier@;
    let ghost own_module = module;
    let mut resolver = ModuleResolver::new(specifier, module);
    proof {
        assert(imports@.take(0) =~= Seq::<(String, ImportEntry<M>)>::empty());
    }
    let ghost all = imports@;
    let mut rest = imports;
    let ghost mut k: int = 0;
    while rest.len() > 0
        invariant
            all == imports@,
            0 <= k <= all.len(),
            rest@ == all.skip(k),
            resolver.wf(),
            resolver.module_map() == imported_modules(own, own_module, all.take(k)),
            resolver.source_map() == imported_sources(all.take(k)),
            forall|j: int| 0 <= j < k ==> entry_ok(#[trigger] all[j].1, isolate_id),
        decreases rest@.len(),
    {
        let (key, entry) = rest.remove(0);
        proof {
            assert(all[k] == (key, entry));
            assert(all.take(k + 1).drop_last() =~= all.take(k));
            assert(all.take(k + 1).last() == (key, entry));
        }
        if !entry_accepted(&entry, isolate_id) {
            let e = import_error(&key, &entry);
            proof {
                assert(!entry_ok(all[k].1, isolate_id));
                assert(import_error_matches(all, k, e));
            }
            return Err(e);
        }
        match entry {
            ImportEntry::Module { module, .. } => {
                resolver.add_module(key, module);
            },
            ImportEntry::Source(source) => {
                resolver.add_source(key, source);
            },
            ImportEntry::Other { .. } => {},
        }
        proof {
            assert(rest@ =~= all.skip(k + 1));
            k = k + 1;
        }
    }
    assert(all.take(all.len() as int) =~= all);
    Ok(resolver)
}

/// What the module loader gives back for a specifier.
pub enum ModuleLoad<M> {
    /// A source to compile under the requested specifier.
    Source(String),
    /// A module already compiled, with its own specifier.
    Module { module: M, specifier: String },
    /// Nothing.
    Missing,
}

/// How the loader's resolver is asked for a module: a callable is called
/// with the specifier, the referrer and the import attributes; a mapping
/// with a `get` method is asked with `get(specifier, None)`; any other
/// mapping is indexed.
#[derive(Clone, Copy, Debug, PartialEq, Eq, Structural)]
pub enum ResolverStyle {
    Call,
    Get,
    Index,
}

/// How the loader's resolver is asked.
pub fn resolver_style(is_callable: bool, has_get: bool) -> (r: ResolverStyle)
    ensures
        r == (if is_callable {
            ResolverStyle::Call
        } else if has_get {
            ResolverStyle::Get
        } else {
            ResolverStyle::Index
        }),
{
    if is_callable {
        ResolverStyle::Call
    } else if has_get {
        ResolverStyle::Get
    } else {
        ResolverStyle::Index
    }
}

/// The message for a resolver result that is neither a source, a module nor
/// `None`.
pub open spec fn bad_load_text(kind_name: Seq<char>) -> Seq<char> {
    "ModuleLoader resolver must return a source string, v8.Module, or None, got '"@ + kind_name
        + "'."@
}

/// The message for a resolver result that is neither a source, a module nor
/// `None`.
pub fn bad_load_message(kind_name: &str) -> (r: String)
    ensures
        r@ == bad_load_text(kind_name@),
{
    let mut m = String::from_str("ModuleLoader resolver must return a source string, v8.Module, or None, got '");
    append_str(&mut m, kind_name);
    append_str(&mut m, "'.");
    m
}

/// The message for a module that cannot be resolved.
pub open spec fn unresolved_text(specifier: Seq<char>) -> Seq<char> {
    "Cannot resolve module '"@ + specifier + "'."@
}

/// The message for a module that cannot be resolved.
pub fn unresolved_message(specifier: &str) -> (r: String)
    ensures
        r@ == unresolved_text(specifier@),
{
    let mut m = String::from_str("Cannot resolve module '");
    append_str(&mut m, specifier);
    append_str(&mut m, "'.");
    m
}

/// The message for a module source that does not compile.
pub open spec fn uncompilable_text(specifier: Seq<char>) -> Seq<char> {
    "Failed to compile module '"@ + specifier + "'."@
}

/// The message for a module source that does not compile.
pub fn uncompilable_message(specifier: &str) -> (r: String)
    ensures
        r@ == uncompilable_text(specifier@),
{
    let mut m = String::from_str("Failed to compile module '");
    append_str(&mut m, specifier);
    append_str(&mut m, "'.");
    m
}

/// The modules the module loader has seen, by the specifiers they were
/// requested or compiled under, and the specifier of each module by its
/// identity hash.
#[verifier::reject_recursive_types(M)]
pub struct ModuleCache<M> {
    modules: StringHashMap<M>,
    specifiers: HashMap<i32, String>,
}

impl<M: Clone> ModuleCache<M> {
    /// The modules by specifier.
    pub closed spec fn module_map(&self) -> Map<Seq<char>, M> {
        self.modules@
    }

    /// The specifiers by identity hash.
    pub closed spec fn specifier_map(&self) -> Map<i32, Seq<char>> {
        self.specifiers@.map_values(|s: String| s@)
    }

    /// An empty cache.
    pub fn new() -> (r: Self)
        ensures
            r.module_map() == Map::<Seq<char>, M>::empty(),
            r.specifier_map() == Map::<i32, Seq<char>>::empty(),
    {
        let r = ModuleCache { modules: StringHashMap::new(), specifiers: HashMap::new() };
        assert(r.specifier_map() =~= Map::<i32, Seq<char>>::empty());
        r
    }

    /// The module cached under a specifier.
    pub fn cached_module(&self, specifier: &str) -> (r: Option<M>)
        ensures
            match r {
                Some(m) => self.module_map().contains_key(specifier@) && cloned(
                    self.module_map()[specifier@],
                    m,
                ),
                None => !self.module_map().contains_key(specifier@),
            },
    {
        match self.modules.get(specifier) {
            Some(m) => Some(m.clone()),
            None => None,
        }
    }

    /// Remembers a module under the specifier it was requested as and under
    /// its own specifier, and its own specifier under its identity hash.
    pub fn remember_module(&mut self, cache_key: &str, module_specifier: &str, identity: i32, module: M)
        ensures
            final(self).module_map().dom() == old(self).module_map().dom().insert(cache_key@).insert(
                module_specifier@,
            ),
            final(self).module_map()[module_specifier@] == module,
            cache_key@ != module_specifier@ ==> cloned(module, final(self).module_map()[cache_key@]),
            forall|k: Seq<char>|
                k != cache_key@ && k != module_specifier@ && #[trigger] old(self).module_map().contains_key(k)
                    ==> final(self).module_map()[k] == old(self).module_map()[k],
            final(self).specifier_map() == old(self).specifier_map().insert(identity, module_specifier@),
    {
        let copy = module.clone();
        self.modules.insert(cache_key.to_string(), copy);
        self.modules.insert(module_specifier.to_string(), module);
        self.specifiers.insert(identity, module_specifier.to_string());
        proof {
            assert(self.specifier_map() =~= old(self).specifier_map().insert(identity, module_specifier@));
        }
    }

    /// The specifier of a module, by its identity hash.
    pub fn module_specifier(&self, identity: i32) -> (r: Option<String>)
        ensures
            match r {
                Some(s) => self.specifier_map().contains_key(identity) && s@ == self.specifier_map()[identity],
                None => !self.specifier_map().contains_key(identity),
            },
    {
        match self.specifiers.get(&identity) {
            Some(s) => Some(s.clone()),
            None => None,
        }
    }
}

/// How the import attributes are laid out in the engine's array: key,
/// value and source position for a static import; key and value for a
/// dynamic one.
#[derive(Clone, Copy, Debug, PartialEq, Eq, Structural)]
pub enum ImportAttributeLayout {
    Static,
    Dynamic,
}

/// The number of array slots per attribute.
pub open spec fn layout_stride(l: ImportAttributeLayout) -> int {
    match l {
        ImportAttributeLayout::Static => 3,
        ImportAttributeLayout::Dynamic => 2,
    }
}

/// The attribute pairs read from the array's texts (`None` where a slot
/// could not be read as a string): pairs are read at each stride while a key
/// and a value remain, and reading stops at the first slot that is not a
/// string.
pub open spec fn attribute_pairs(slots: Seq<Option<Seq<char>>>, stride: int, index: int) -> Seq<
    (Seq<char>, Seq<char>),
>
    decreases slots.len() - index,
{
    if index < 0 || stride <= 0 || index + 1 >= slots.len() {
        Seq::empty()
    } else {
        match (slots[index], slots[index + 1]) {
            (Some(k), Some(v)) => seq![(k, v)] + (if index + stride < slots.len() {
                attribute_pairs(slots, stride, index + stride)
            } else {
                Seq::empty()
            }),
            _ => Seq::empty(),
        }
    }
}

/// The views of a list of optional strings.
pub open spec fn opt_views(v: Seq<Option<String>>) -> Seq<Option<Seq<char>>> {
    v.map_values(|o: Option<String>| match o {
        Some(s) => Some(s@),
        None => None,
    })
}

/// The views of a list of string pairs.
pub open spec fn pair_views(v: Seq<(String, String)>) -> Seq<(Seq<char>, Seq<char>)> {
    v.map_values(|p: (String, String)| (p.0@, p.1@))
}

/// Reads the import attributes from the texts of the engine's array.  A
/// later pair with the same key replaces an earlier one when the pairs are
/// put in a dict.
pub fn import_attributes(slots: &Vec<Option<String>>, layout: ImportAttributeLayout) -> (r: Vec<(String, String)>)
    ensures
        pair_views(r@) == attribute_pairs(opt_views(slots@), layout_stride(layout), 0),
{
    let stride: usize = match layout {
        ImportAttributeLayout::Static => 3,
        ImportAttributeLayout::Dynamic => 2,
    };
    let ghost s = opt_views(slots@);
    let mut out: Vec<(String, String)> = Vec::new();
    let mut index: usize = 0;
    loop
        invariant
            s == opt_views(slots@),
            stride == layout_stride(layout),
            index < slots@.len() || (index == 0 && slots@.len() == 0),
            pair_views(out@) + attribute_pairs(s, stride as int, index as int) == attribute_pairs(s, stride as int, 0),
        decreases slots@.len() - index,
    {
        if slots.len() - index <= 1 {
            proof {
                assert(attribute_pairs(s, stride as int, index as int) =~= Seq::empty());
                assert(pair_views(out@) =~= attribute_pairs(s, stride as int, 0));
            }
            return out;
        }
        let key = match &slots[index] {
            Some(k) => k.clone(),
            None => {
                proof {
                    assert(attribute_pairs(s, stride as int, index as int) =~= Seq::empty());
                    assert(pair_views(out@) =~= attribute_pairs(s, stride as int, 0));
                }
                return out;
            },
        };
        let value = match &slots[index + 1] {
            Some(v) => v.clone(),
            None => {
                proof {
                    assert(attribute_pairs(s, stride as int, index as int) =~= Seq::empty());
                    assert(pair_views(out@) =~= attribute_pairs(s, stride as int, 0));
                }
                return out;
            },
        };
        let ghost before = out@;
        out.push((key, value));
        proof {
            assert(pair_views(out@) =~= pair_views(before).push((key@, value@)));
        }
        if slots.len() - index <= stride {
            proof {
                assert(attribute_pairs(s, stride as int, index as int) =~= seq![(key@, value@)]);
                assert(pair_views(out@) =~= attribute_pairs(s, stride as int, 0));
            }
            return out;
        }
        proof {
            assert(attribute_pairs(s, stride as int, index as int) =~= seq![(key@, value@)] + attribute_pairs(
                s,
                stride as int,
                index + stride,
            ));
            assert(pair_views(before) + attribute_pairs(s, stride as int, index as int)
                =~= pair_views(out@) + attribute_pairs(s, stride as int, index + stride));
        }
        index = index + stride;
    }
}

/// What a dynamic import does next with the module it loaded, given its
/// status: instantiate it first; report its error; resolve with its
/// namespace once evaluated; else evaluate it.
#[derive(Clone, Copy, Debug, PartialEq, Eq, Structural)]
pub enum ImportAction {
    Instantiate,
    Reject,
    ResolveNamespace,
    Evaluate,
}

/// The next step of a dynamic import before evaluation.
pub fn dynamic_import_action(status: ModuleStatus, instantiated_now: bool) -> (r: ImportAction)
    ensures
        status == ModuleStatus::Uninstantiated && !instantiated_now ==> r == ImportAction::Instantiate,
        !(status == ModuleStatus::Uninstantiated && !instantiated_now) ==> r == match status {
            ModuleStatus::Errored => ImportAction::Reject,
            ModuleStatus::Evaluated => ImportAction::ResolveNamespace,
            _ => ImportAction::Evaluate,
        },
{
    match status {
        ModuleStatus::Uninstantiated => {
            if !instantiated_now {
                ImportAction::Instantiate
            } else {
                ImportAction::Evaluate
            }
        },
        ModuleStatus::Errored => ImportAction::Reject,
        ModuleStatus::Evaluated => ImportAction::ResolveNamespace,
        _ => ImportAction::Evaluate,
    }
}

/// What a dynamic import does once the module was evaluated: report its
/// error; wait for an evaluation promise and then give the namespace; or
/// give the namespace at once.
#[derive(Clone, Copy, Debug, PartialEq, Eq, Structural)]
pub enum EvaluatedAction {
    Reject,
    ChainNamespace,
    ResolveNamespace,
}

/// The step of a dynamic import after evaluation.
pub fn after_evaluation_action(status: ModuleStatus, result_is_promise: bool) -> (r: EvaluatedAction)
    ensures
        r == (if status == ModuleStatus::Errored {
            EvaluatedAction::Reject
        } else if result_is_promise {
            EvaluatedAction::ChainNamespace
        } else {
            EvaluatedAction::ResolveNamespace
        }),
{
    if status == ModuleStatus::Errored {
        EvaluatedAction::Reject
    } else if result_is_promise {
        EvaluatedAction::ChainNamespace
    } else {
        EvaluatedAction::ResolveNamespace
    }
}

/// The referrer of a dynamic import: the resource name's text, none for
/// `undefined` or `null` (or when it cannot be converted).
pub fn referrer_name(is_undefined: bool, is_null: bool, converted: Option<String>) -> (r: Option<String>)
    ensures
        r == (if is_undefined || is_null {
            None
        } else {
            converted
        }),
{
    if is_undefined || is_null {
        None
    } else {
        converted
    }
}

} // verus!
