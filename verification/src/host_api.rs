//! The host APIs a profile can install into a context, their definitions,
//! and the settings of the simple ones.
use vstd::prelude::*;
use crate::rejection::RejectionPolicy;
use crate::text::{clone_opt_string, is_blank, is_blank_str, opt_view};

verus! {

/// The kinds of host API.
#[derive(Clone, Copy, Debug, PartialEq, Eq, Structural)]
pub enum HostAPIKind {
    Timer,
    SharedArrayBuffer,
    Atomics,
    Console,
    DynamicCodePolicy,
    Inspector,
    ModuleLoader,
    PromiseRejectionTracker,
    MicrotaskQueue,
    ShadowRealm,
    WebAssembly,
}

/// The Atomics settings: whether `Atomics.wait` may block.
#[derive(Clone, Copy, Debug, PartialEq, Eq, Structural)]
pub struct AtomicsDefinition {
    pub allow_wait: bool,
}

impl AtomicsDefinition {
    /// A copy of the settings.
    pub fn clone_ref(&self) -> (r: Self)
        ensures
            r == *self,
    {
        *self
    }
}

/// The Atomics host API as Python configures it.
#[derive(Clone, Copy, Debug, PartialEq, Eq, Structural)]
pub struct AtomicsAPI {
    allow_wait: bool,
}

impl AtomicsAPI {
    /// Whether blocking waits are allowed.
    pub closed spec fn spec_allow_wait(&self) -> bool {
        self.allow_wait
    }

    /// The configuration; Python's default allows waiting.
    pub fn new(allow_wait: bool) -> (r: Self)
        ensures
            r.spec_allow_wait() == allow_wait,
    {
        AtomicsAPI { allow_wait }
    }

    /// Whether `Atomics.wait` may block.
    pub fn allow_wait(&self) -> (r: bool)
        ensures
            r == self.spec_allow_wait(),
    {
        self.allow_wait
    }

    /// The definition that a profile keeps.
    pub fn definition(&self) -> (r: AtomicsDefinition)
        ensures
            r.allow_wait == self.spec_allow_wait(),
    {
        AtomicsDefinition { allow_wait: self.allow_wait }
    }
}

impl Default for AtomicsAPI {
    /// The default configuration: waiting is allowed.
    fn default() -> (r: Self)
        ensures
            r.spec_allow_wait(),
    {
        AtomicsAPI { allow_wait: true }
    }
}

/// The dynamic code policy: whether `eval` and `Function` may generate code
/// from strings.
#[derive(Clone, Copy, Debug, PartialEq, Eq, Structural)]
pub struct DynamicCodePolicyDefinition {
    pub allow_eval: bool,
}

impl DynamicCodePolicyDefinition {
    /// A copy of the settings.
    pub fn clone_ref(&self) -> (r: Self)
        ensures
            r == *self,
    {
        *self
    }
}

/// The dynamic code policy host API as Python configures it.
#[derive(Clone, Copy, Debug, PartialEq, Eq, Structural)]
pub struct DynamicCodePolicyAPI {
    allow_eval: bool,
}

impl DynamicCodePolicyAPI {
    /// Whether code generation from strings is allowed.
    pub closed spec fn spec_allow_eval(&self) -> bool {
        self.allow_eval
    }

    /// The configuration; Python's default forbids code generation.
    pub fn new(allow_eval: bool) -> (r: Self)
        ensures
            r.spec_allow_eval() == allow_eval,
    {
        DynamicCodePolicyAPI { allow_eval }
    }

    /// Whether `eval` and `Function` may generate code from strings.
    pub fn allow_eval(&self) -> (r: bool)
        ensures
            r == self.spec_allow_eval(),
    {
        self.allow_eval
    }

    /// The definition that a profile keeps.
    pub fn definition(&self) -> (r: DynamicCodePolicyDefinition)
        ensures
            r.allow_eval == self.spec_allow_eval(),
    {
        DynamicCodePolicyDefinition { allow_eval: self.allow_eval }
    }
}

impl Default for DynamicCodePolicyAPI {
    /// The default configuration: code generation from strings is forbidden.
    fn default() -> (r: Self)
        ensures
            !r.spec_allow_eval(),
    {
        DynamicCodePolicyAPI { allow_eval: false }
    }
}

/// The context group the inspector uses unless told otherwise.
pub const DEFAULT_CONTEXT_GROUP_ID: i32 = 1;

/// The inspector settings.
pub struct InspectorDefinition {
    pub name: String,
    pub context_group_id: i32,
    pub aux_data: Option<String>,
}

/// The auxiliary data reported for the context when none was given.
pub open spec fn default_aux_data() -> Seq<char> {
    "{\"isDefault\":true}"@
}

impl InspectorDefinition {
    /// A copy of the settings.
    pub fn clone_ref(&self) -> (r: Self)
        ensures
            r.name@ == self.name@,
            r.context_group_id == self.context_group_id,
            opt_view(r.aux_data) == opt_view(self.aux_data),
    {
        InspectorDefinition {
            name: self.name.clone(),
            context_group_id: self.context_group_id,
            aux_data: clone_opt_string(&self.aux_data),
        }
    }

    /// The auxiliary data reported to the inspector for the context: the one
    /// given, else `{"isDefault":true}`.
    pub fn aux_data_or_default(&self) -> (r: &str)
        ensures
            r@ == match self.aux_data {
                Some(a) => a@,
                None => default_aux_data(),
            },
    {
        match &self.aux_data {
            Some(a) => a.as_str(),
            None => "{\"isDefault\":true}",
        }
    }
}

/// The inspector's context name was empty or all white space.
#[derive(Clone, Copy, Debug, PartialEq, Eq, Structural)]
pub struct EmptyInspectorName;

impl EmptyInspectorName {
    /// The error's message.
    pub fn message(self) -> (r: &'static str)
        ensures
            r@ == "Inspector context name cannot be empty."@,
    {
        "Inspector context name cannot be empty."
    }
}

/// The context name the inspector uses unless told otherwise.
pub open spec fn default_inspector_name() -> Seq<char> {
    "v8-python"@
}

/// The inspector host API as Python configures it.
pub struct InspectorAPI {
    name: String,
    context_group_id: i32,
    aux_data: Option<String>,
}

impl InspectorAPI {
    /// The context name.
    pub closed spec fn spec_name(&self) -> Seq<char> {
        self.name@
    }

    /// The context group id.
    pub closed spec fn spec_context_group_id(&self) -> i32 {
        self.context_group_id
    }

    /// The auxiliary context data.
    pub closed spec fn spec_aux_data(&self) -> Option<Seq<char>> {
        opt_view(self.aux_data)
    }

    /// The configuration, refused when the name is empty once trimmed.
    /// Python's defaults are the name "v8-python" and context group 1.
    pub fn new(name: &str, context_group_id: i32, aux_data: Option<String>) -> (r: Result<
        Self,
        EmptyInspectorName,
    >)
        ensures
            is_blank(name@) <==> r is Err,
            r matches Ok(api) ==> api.spec_name() == name@ && api.spec_context_group_id()
                == context_group_id && api.spec_aux_data() == opt_view(aux_data),
    {
        if is_blank_str(name) {
            return Err(EmptyInspectorName);
        }
        Ok(InspectorAPI { name: name.to_string(), context_group_id, aux_data })
    }

    /// The default configuration: the name "v8-python", context group 1 and
    /// no auxiliary data.
    pub fn with_defaults() -> (r: Self)
        ensures
            r.spec_name() == default_inspector_name(),
            r.spec_context_group_id() == DEFAULT_CONTEXT_GROUP_ID,
            r.spec_aux_data() is None,
    {
        InspectorAPI {
            name: String::from_str("v8-python"),
            context_group_id: DEFAULT_CONTEXT_GROUP_ID,
            aux_data: None,
        }
    }

    /// The context name.
    pub fn name(&self) -> (r: &str)
        ensures
            r@ == self.spec_name(),
    {
        self.name.as_str()
    }

    /// The context group id.
    pub fn context_group_id(&self) -> (r: i32)
        ensures
            r == self.spec_context_group_id(),
    {
        self.context_group_id
    }

    /// The auxiliary context data, if any was given.
    pub fn aux_data(&self) -> (r: Option<&str>)
        ensures
            match r {
                Some(a) => self.spec_aux_data() == Some(a@),
                None => self.spec_aux_data() is None,
            },
    {
        match &self.aux_data {
            Some(a) => Some(a.as_str()),
            None => None,
        }
    }

    /// The definition that a profile keeps.
    pub fn definition(&self) -> (r: InspectorDefinition)
        ensures
            r.name@ == self.spec_name(),
            r.context_group_id == self.spec_context_group_id(),
            opt_view(r.aux_data) == self.spec_aux_data(),
    {
        InspectorDefinition {
            name: self.name.clone(),
            context_group_id: self.context_group_id,
            aux_data: clone_opt_string(&self.aux_data),
        }
    }
}

/// A host API as a profile keeps it.  `H` is the host's handle for a Python
/// object (a logger, a callback, a cache).
pub enum HostAPIDefinition<H> {
    Timer,
    SharedArrayBuffer,
    Atomics(AtomicsDefinition),
    Console { logger: H },
    DynamicCodePolicy(DynamicCodePolicyDefinition),
    Inspector(InspectorDefinition),
    ModuleLoader { resolver: Option<H>, import_meta: Option<H> },
    PromiseRejectionTracker { policy: RejectionPolicy, callback: Option<H> },
    MicrotaskQueue,
    ShadowRealm,
    WebAssembly { loader: Option<H>, allow_code_generation: bool, cache: Option<H> },
}

/// The kind of a definition.
pub open spec fn definition_kind<H>(d: HostAPIDefinition<H>) -> HostAPIKind {
    match d {
        HostAPIDefinition::Timer => HostAPIKind::Timer,
        HostAPIDefinition::SharedArrayBuffer => HostAPIKind::SharedArrayBuffer,
        HostAPIDefinition::Atomics(_) => HostAPIKind::Atomics,
        HostAPIDefinition::Console { .. } => HostAPIKind::Console,
        HostAPIDefinition::DynamicCodePolicy(_) => HostAPIKind::DynamicCodePolicy,
        HostAPIDefinition::Inspector(_) => HostAPIKind::Inspector,
        HostAPIDefinition::ModuleLoader { .. } => HostAPIKind::ModuleLoader,
        HostAPIDefinition::PromiseRejectionTracker { .. } => HostAPIKind::PromiseRejectionTracker,
        HostAPIDefinition::MicrotaskQueue => HostAPIKind::MicrotaskQueue,
        HostAPIDefinition::ShadowRealm => HostAPIKind::ShadowRealm,
        HostAPIDefinition::WebAssembly { .. } => HostAPIKind::WebAssembly,
    }
}

/// The kinds whose definitions configure the isolate before the context is
/// created.
pub open spec fn configures_isolate(k: HostAPIKind) -> bool {
    k == HostAPIKind::Atomics || k == HostAPIKind::ShadowRealm || k == HostAPIKind::WebAssembly
}

/// The kinds that install something into the created context (Atomics only
/// configures the isolate).
pub open spec fn installs_into_context(k: HostAPIKind) -> bool {
    k != HostAPIKind::Atomics
}

/// Copies a handle (`clone_ref` in Python's terms).
fn copy_handle<H: Clone>(h: &H) -> (r: H)
    ensures
        cloned(*h, r),
{
    h.clone()
}

/// Whether `b` is a copy of the optional handle `a`.
pub open spec fn opt_cloned<H: Clone>(a: Option<H>, b: Option<H>) -> bool {
    match (a, b) {
        (Some(x), Some(y)) => cloned(x, y),
        (None, None) => true,
        _ => false,
    }
}

/// Copies an optional handle.
fn copy_opt_handle<H: Clone>(h: &Option<H>) -> (r: Option<H>)
    ensures
        opt_cloned(*h, r),
{
    match h {
        Some(x) => Some(copy_handle(x)),
        None => None,
    }
}

/// Whether `copy` is a copy of the definition `orig`: the same kind, the same
/// plain settings, and copies of the host's handles.
pub open spec fn is_copy_of<H: Clone>(orig: HostAPIDefinition<H>, copy: HostAPIDefinition<H>) -> bool {
    &&& definition_kind(copy) == definition_kind(orig)
    &&& match (orig, copy) {
            (HostAPIDefinition::Atomics(a), HostAPIDefinition::Atomics(b)) => a == b,
            (HostAPIDefinition::DynamicCodePolicy(a), HostAPIDefinition::DynamicCodePolicy(b)) => a == b,
            (HostAPIDefinition::Inspector(a), HostAPIDefinition::Inspector(b)) => a.name@ == b.name@
                && a.context_group_id == b.context_group_id && opt_view(a.aux_data) == opt_view(
                b.aux_data,
            ),
            (HostAPIDefinition::Console { logger: l1 }, HostAPIDefinition::Console { logger: l2 }) => cloned(
                l1,
                l2,
            ),
            (
                HostAPIDefinition::ModuleLoader { resolver: r1, import_meta: m1 },
                HostAPIDefinition::ModuleLoader { resolver: r2, import_meta: m2 },
            ) => opt_cloned(r1, r2) && opt_cloned(m1, m2),
            (
                HostAPIDefinition::PromiseRejectionTracker { policy: p1, callback: c1 },
                HostAPIDefinition::PromiseRejectionTracker { policy: p2, callback: c2 },
            ) => p1 == p2 && opt_cloned(c1, c2),
            (
                HostAPIDefinition::WebAssembly { loader: l1, allow_code_generation: g1, cache: c1 },
                HostAPIDefinition::WebAssembly { loader: l2, allow_code_generation: g2, cache: c2 },
            ) => g1 == g2 && opt_cloned(l1, l2) && opt_cloned(c1, c2),
            _ => true,
        }
}

impl<H: Clone> HostAPIDefinition<H> {
    /// The definition's kind.
    pub fn kind(&self) -> (r: HostAPIKind)
        ensures
            r == definition_kind(*self),
    {
        match self {
            HostAPIDefinition::Timer => HostAPIKind::Timer,
            HostAPIDefinition::SharedArrayBuffer => HostAPIKind::SharedArrayBuffer,
            HostAPIDefinition::Atomics(_) => HostAPIKind::Atomics,
            HostAPIDefinition::Console { .. } => HostAPIKind::Console,
            HostAPIDefinition::DynamicCodePolicy(_) => HostAPIKind::DynamicCodePolicy,
            HostAPIDefinition::Inspector(_) => HostAPIKind::Inspector,
            HostAPIDefinition::ModuleLoader { .. } => HostAPIKind::ModuleLoader,
            HostAPIDefinition::PromiseRejectionTracker { .. } => HostAPIKind::PromiseRejectionTracker,
            HostAPIDefinition::MicrotaskQueue => HostAPIKind::MicrotaskQueue,
            HostAPIDefinition::ShadowRealm => HostAPIKind::ShadowRealm,
            HostAPIDefinition::WebAssembly { .. } => HostAPIKind::WebAssembly,
        }
    }

    /// Whether two definitions are of the same kind, whatever their settings.
    pub fn same_kind(&self, other: &Self) -> (r: bool)
        ensures
            r == (definition_kind(*self) == definition_kind(*other)),
    {
        self.kind() == other.kind()
    }

    /// A copy of the definition, with the host's handles copied; settings
    /// that are plain values are kept as they are.
    pub fn clone_ref(&self) -> (r: Self)
        ensures
            is_copy_of(*self, r),
    {
        match self {
            HostAPIDefinition::Timer => HostAPIDefinition::Timer,
            HostAPIDefinition::SharedArrayBuffer => HostAPIDefinition::SharedArrayBuffer,
            HostAPIDefinition::Atomics(d) => HostAPIDefinition::Atomics(d.clone_ref()),
            HostAPIDefinition::Console { logger } => HostAPIDefinition::Console { logger: copy_handle(logger) },
            HostAPIDefinition::DynamicCodePolicy(d) => HostAPIDefinition::DynamicCodePolicy(d.clone_ref()),
            HostAPIDefinition::Inspector(d) => HostAPIDefinition::Inspector(d.clone_ref()),
            HostAPIDefinition::ModuleLoader { resolver, import_meta } => HostAPIDefinition::ModuleLoader {
                resolver: copy_opt_handle(resolver),
                import_meta: copy_opt_handle(import_meta),
            },
            HostAPIDefinition::PromiseRejectionTracker { policy, callback } => {
                HostAPIDefinition::PromiseRejectionTracker {
                    policy: *policy,
                    callback: copy_opt_handle(callback),
                }
            },
            HostAPIDefinition::MicrotaskQueue => HostAPIDefinition::MicrotaskQueue,
            HostAPIDefinition::ShadowRealm => HostAPIDefinition::ShadowRealm,
            HostAPIDefinition::WebAssembly { loader, allow_code_generation, cache } => {
                HostAPIDefinition::WebAssembly {
                    loader: copy_opt_handle(loader),
                    allow_code_generation: *allow_code_generation,
                    cache: copy_opt_handle(cache),
                }
            },
        }
    }
}

impl HostAPIKind {
    /// Whether the definition configures the isolate before the context is
    /// created: Atomics sets whether waits may block, ShadowRealm and
    /// WebAssembly set isolate-wide callbacks.
    pub fn configures_isolate(self) -> (r: bool)
        ensures
            r == configures_isolate(self),
    {
        match self {
            HostAPIKind::Atomics | HostAPIKind::ShadowRealm | HostAPIKind::WebAssembly => true,
            _ => false,
        }
    }

    /// Whether the definition installs something into the created context.
    pub fn installs_into_context(self) -> (r: bool)
        ensures
            r == installs_into_context(self),
    {
        match self {
            HostAPIKind::Atomics => false,
            _ => true,
        }
    }
}

/// Having the same kind is an equivalence on definitions.
pub proof fn same_kind_is_equivalence<H>(a: HostAPIDefinition<H>, b: HostAPIDefinition<H>, c: HostAPIDefinition<H>)
    ensures
        definition_kind(a) == definition_kind(a),
        definition_kind(a) == definition_kind(b) ==> definition_kind(b) == definition_kind(a),
        definition_kind(a) == definition_kind(b) && definition_kind(b) == definition_kind(c)
            ==> definition_kind(a) == definition_kind(c),
{
}

} // verus!
