//! Profiles: reusable sets of host functions, host classes and host APIs,
//! and the dotted global paths under which host functions are installed.
use vstd::prelude::*;
use crate::host_api::{HostAPIDefinition, definition_kind};
use crate::text::{chars_of, is_blank, is_blank_str};

verus! {

/// Why a host function or class definition was refused.
#[derive(Clone, Copy, Debug, PartialEq, Eq, Structural)]
pub enum DefinitionError {
    /// The host function is not callable.
    NotCallable,
    /// The name given is empty once trimmed.
    EmptyName,
}

/// The name a host function is registered under: the name given, unless it
/// is blank (an error), or, with none given, the callable's own `__name__`,
/// which the caller fetches (`None` here).  A value that is not callable is
/// refused first.
pub fn host_function_name(is_callable: bool, name: Option<String>) -> (r: Result<
    Option<String>,
    DefinitionError,
>)
    ensures
        !is_callable ==> r == Err::<Option<String>, DefinitionError>(DefinitionError::NotCallable),
        is_callable ==> match name {
            Some(n) => if is_blank(n@) {
                r == Err::<Option<String>, DefinitionError>(DefinitionError::EmptyName)
            } else {
                r matches Ok(Some(m)) && m@ == n@
            },
            None => r matches Ok(None),
        },
{
    if !is_callable {
        return Err(DefinitionError::NotCallable);
    }
    match name {
        Some(n) => {
            if is_blank_str(n.as_str()) {
                Err(DefinitionError::EmptyName)
            } else {
                Ok(Some(n))
            }
        },
        None => Ok(None),
    }
}

/// A host function as a profile keeps it: the global path it is installed
/// under and the host's handle for the callable.
pub struct HostFunctionDefinition<C> {
    pub name: String,
    pub callable: C,
}

impl<C: Clone> HostFunctionDefinition<C> {
    /// A definition with a resolved name.
    pub fn new(name: String, callable: C) -> (r: Self)
        ensures
            r.name@ == name@,
            r.callable == callable,
    {
        HostFunctionDefinition { name, callable }
    }

    /// A copy of the definition with the handle copied.
    pub fn clone_ref(&self) -> (r: Self)
        ensures
            r.name@ == self.name@,
            cloned(self.callable, r.callable),
    {
        HostFunctionDefinition { name: self.name.clone(), callable: self.callable.clone() }
    }
}

/// The segments of a dotted path, split at every '.'.
pub open spec fn split_dots(path: Seq<char>) -> Seq<Seq<char>>
    decreases path.len(),
{
    if path.len() == 0 {
        seq![Seq::empty()]
    } else {
        let rest = split_dots(path.drop_last());
        if path.last() == '.' {
            rest.push(Seq::empty())
        } else {
            rest.update(rest.len() - 1, rest.last().push(path.last()))
        }
    }
}

/// `parts` joined with '.'.
pub open spec fn join_dots(parts: Seq<Seq<char>>) -> Seq<char>
    decreases parts.len(),
{
    if parts.len() == 0 {
        Seq::empty()
    } else if parts.len() == 1 {
        parts[0]
    } else {
        join_dots(parts.drop_last()) + seq!['.'] + parts.last()
    }
}

/// Every segment is non-empty.
pub open spec fn all_non_empty(parts: Seq<Seq<char>>) -> bool {
    forall|i: int| 0 <= i < parts.len() ==> #[trigger] parts[i].len() > 0
}

/// A path had an empty segment.
#[derive(Clone, Copy, Debug, PartialEq, Eq, Structural)]
pub struct EmptyPathSegment;

/// Splitting never gives an empty list, and no segment holds a '.'.
proof fn lemma_split_shape(path: Seq<char>)
    ensures
        split_dots(path).len() >= 1,
        forall|i: int, j: int|
            0 <= i < split_dots(path).len() && 0 <= j < split_dots(path)[i].len()
                ==> #[trigger] split_dots(path)[i][j] != '.',
    decreases path.len(),
{
    if path.len() > 0 {
        lemma_split_shape(path.drop_last());
        let rest = split_dots(path.drop_last());
        if path.last() != '.' {
            assert forall|i: int, j: int|
                0 <= i < split_dots(path).len() && 0 <= j < split_dots(path)[i].len()
                    implies #[trigger] split_dots(path)[i][j] != '.' by {
                if i == rest.len() - 1 {
                    if j < rest.last().len() {
                        assert(split_dots(path)[i][j] == rest[i][j]);
                    }
                } else {
                    assert(split_dots(path)[i] == rest[i]);
                }
            }
        } else {
            assert forall|i: int, j: int|
                0 <= i < split_dots(path).len() && 0 <= j < split_dots(path)[i].len()
                    implies #[trigger] split_dots(path)[i][j] != '.' by {
                assert(split_dots(path)[i] == rest[i]);
            }
        }
    }
}

/// Joining the segments with '.' gives the path back.
proof fn lemma_split_join(path: Seq<char>)
    ensures
        join_dots(split_dots(path)) == path,
    decreases path.len(),
{
    if path.len() > 0 {
        let p = path.drop_last();
        lemma_split_join(p);
        lemma_split_shape(p);
        let rest = split_dots(p);
        assert(path =~= p.push(path.last()));
        if path.last() == '.' {
            let s = rest.push(Seq::<char>::empty());
            assert(s.drop_last() =~= rest);
            assert(join_dots(s) =~= join_dots(rest) + seq!['.'] + Seq::<char>::empty());
        } else {
            let s = rest.update(rest.len() - 1, rest.last().push(path.last()));
            if rest.len() == 1 {
                assert(join_dots(rest) == rest[0]);
                assert(join_dots(s) == s[0]);
            } else {
                assert(s.drop_last() =~= rest.drop_last());
                assert(join_dots(s) == join_dots(rest.drop_last()) + seq!['.'] + s.last());
                assert(join_dots(rest) == join_dots(rest.drop_last()) + seq!['.'] + rest.last());
            }
        }
    }
}

/// Splits a dotted path into its segments, refusing a path with an empty
/// segment (which includes the empty path).
pub fn path_segments(path: &str) -> (r: Result<Vec<String>, EmptyPathSegment>)
    ensures
        all_non_empty(split_dots(path@)) ==> (r matches Ok(v) && v@.map_values(|s: String| s@)
            == split_dots(path@)),
        !all_non_empty(split_dots(path@)) ==> r == Err::<Vec<String>, EmptyPathSegment>(
            EmptyPathSegment,
        ),
{
    let chars = chars_of(path);
    let mut segments: Vec<String> = Vec::new();
    let mut current = String::new();
    proof {
        assert(chars@.take(0) =~= Seq::<char>::empty());
    }
    for i in 0..chars.len()
        invariant
            chars@ == path@,
            ({
                let s = split_dots(chars@.take(i as int));
                &&& segments@.len() + 1 == s.len()
                &&& forall|k: int| 0 <= k < segments@.len() ==> #[trigger] segments@[k]@ == s[k]
                &&& current@ == s.last()
            }),
    {
        let c = chars[i];
        proof {
            assert(chars@.take(i + 1).drop_last() =~= chars@.take(i as int));
            assert(chars@.take(i + 1).last() == c);
        }
        if c == '.' {
            segments.push(current);
            current = String::new();
        } else {
            crate::text::push_char(&mut current, c);
        }
    }
    segments.push(current);
    proof {
        assert(chars@.take(chars@.len() as int) =~= chars@);
        assert(segments@.map_values(|s: String| s@) =~= split_dots(path@));
    }
    let n = segments.len();
    for k in 0..n
        invariant
            n == segments@.len(),
            segments@.map_values(|s: String| s@) == split_dots(path@),
            forall|j: int| 0 <= j < k ==> #[trigger] split_dots(path@)[j].len() > 0,
    {
        if segments[k].as_str().unicode_len() == 0 {
            proof {
                assert(split_dots(path@)[k as int] == segments@[k as int]@);
            }
            return Err(EmptyPathSegment);
        }
        assert(split_dots(path@)[k as int] == segments@[k as int]@);
    }
    Ok(segments)
}

/// The last segment of a dotted path: the name a host function gets.
pub fn last_path_segment(path: &str) -> (r: Result<String, EmptyPathSegment>)
    ensures
        all_non_empty(split_dots(path@)) ==> (r matches Ok(s) && s@ == split_dots(path@).last()),
        !all_non_empty(split_dots(path@)) ==> r == Err::<String, EmptyPathSegment>(EmptyPathSegment),
{
    proof {
        lemma_split_shape(path@);
    }
    match path_segments(path) {
        Ok(mut segments) => {
            let ghost views = segments@.map_values(|s: String| s@);
            assert(views.len() == segments@.len());
            let last = segments.pop().unwrap();
            assert(last@ == views.last());
            Ok(last)
        },
        Err(e) => Err(e),
    }
}

/// A path is made of its segments: joined with '.', they give the path
/// back, there is at least one, and none holds a '.'.
pub proof fn path_segments_rejoin(path: Seq<char>)
    ensures
        join_dots(split_dots(path)) == path,
        split_dots(path).len() >= 1,
        forall|i: int, j: int|
            0 <= i < split_dots(path).len() && 0 <= j < split_dots(path)[i].len()
                ==> #[trigger] split_dots(path)[i][j] != '.',
{
    lemma_split_join(path);
    lemma_split_shape(path);
}

/// A reusable set of host functions, host classes and host APIs.  `F`, `K`
/// and `H` are the host's definitions of functions and classes and its
/// handle for Python objects.
pub struct BaseProfile<F, K, H> {
    host_functions: Vec<F>,
    host_classes: Vec<K>,
    host_apis: Vec<HostAPIDefinition<H>>,
}

/// No two host APIs are of the same kind.
pub open spec fn kinds_distinct<H>(apis: Seq<HostAPIDefinition<H>>) -> bool {
    forall|i: int, j: int|
        0 <= i < j < apis.len() ==> definition_kind(#[trigger] apis[i]) != definition_kind(
            #[trigger] apis[j],
        )
}

impl<F, K, H: Clone> BaseProfile<F, K, H> {
    /// The host functions, in the order they were added.
    pub closed spec fn functions(&self) -> Seq<F> {
        self.host_functions@
    }

    /// The host classes, in the order they were added.
    pub closed spec fn classes(&self) -> Seq<K> {
        self.host_classes@
    }

    /// The host APIs, in the order they were added.
    pub closed spec fn apis(&self) -> Seq<HostAPIDefinition<H>> {
        self.host_apis@
    }

    /// The profile's invariant: at most one host API of each kind.
    pub open spec fn wf(&self) -> bool {
        kinds_distinct(self.apis())
    }

    /// An empty profile.
    pub fn new() -> (r: Self)
        ensures
            r.wf(),
            r.functions().len() == 0,
            r.classes().len() == 0,
            r.apis().len() == 0,
    {
        BaseProfile { host_functions: Vec::new(), host_classes: Vec::new(), host_apis: Vec::new() }
    }

    /// Adds a host function.
    pub fn add_host_function(&mut self, definition: F)
        ensures
            final(self).functions() == old(self).functions().push(definition),
            final(self).classes() == old(self).classes(),
            final(self).apis() == old(self).apis(),
    {
        self.host_functions.push(definition);
    }

    /// Adds a host class.
    pub fn add_host_class(&mut self, definition: K)
        ensures
            final(self).classes() == old(self).classes().push(definition),
            final(self).functions() == old(self).functions(),
            final(self).apis() == old(self).apis(),
    {
        self.host_classes.push(definition);
    }

    /// Adds a host API unless one of the same kind is there already: the
    /// first one of each kind stays.
    pub fn add_host_api(&mut self, api: HostAPIDefinition<H>)
        requires
            old(self).wf(),
        ensures
            final(self).wf(),
            final(self).functions() == old(self).functions(),
            final(self).classes() == old(self).classes(),
            (exists|i: int|
                0 <= i < old(self).apis().len() && definition_kind(#[trigger] old(self).apis()[i])
                    == definition_kind(api)) ==> final(self).apis() == old(self).apis(),
            !(exists|i: int|
                0 <= i < old(self).apis().len() && definition_kind(#[trigger] old(self).apis()[i])
                    == definition_kind(api)) ==> final(self).apis() == old(self).apis().push(api),
    {
        let n = self.host_apis.len();
        for i in 0..n
            invariant
                n == self.host_apis@.len(),
                self.host_apis@ == old(self).host_apis@,
                self.host_functions@ == old(self).host_functions@,
                self.host_classes@ == old(self).host_classes@,
                kinds_distinct(old(self).host_apis@),
                forall|j: int|
                    0 <= j < i ==> definition_kind(#[trigger] self.host_apis@[j]) != definition_kind(api),
        {
            if self.host_apis[i].same_kind(&api) {
                return;
            }
        }
        self.host_apis.push(api);
        proof {
            assert forall|a: int, b: int|
                0 <= a < b < self.host_apis@.len() implies definition_kind(
                    #[trigger] self.host_apis@[a],
                ) != definition_kind(#[trigger] self.host_apis@[b]) by {
                if b == n {
                    assert(self.host_apis@[b] == api);
                    assert(self.host_apis@[a] == old(self).host_apis@[a]);
                } else {
                    assert(self.host_apis@[a] == old(self).host_apis@[a]);
                    assert(self.host_apis@[b] == old(self).host_apis@[b]);
                }
            }
        }
    }

    /// The number of host functions.
    pub fn host_function_count(&self) -> (r: usize)
        ensures
            r == self.functions().len(),
    {
        self.host_functions.len()
    }

    /// The number of host classes.
    pub fn class_count(&self) -> (r: usize)
        ensures
            r == self.classes().len(),
    {
        self.host_classes.len()
    }

    /// The number of host APIs.
    pub fn host_api_count(&self) -> (r: usize)
        ensures
            r == self.apis().len(),
    {
        self.host_apis.len()
    }

    /// The host functions.
    pub fn host_functions(&self) -> (r: &Vec<F>)
        ensures
            r@ == self.functions(),
    {
        &self.host_functions
    }

    /// The host classes.
    pub fn host_classes(&self) -> (r: &Vec<K>)
        ensures
            r@ == self.classes(),
    {
        &self.host_classes
    }

    /// The host APIs.
    pub fn host_apis(&self) -> (r: &Vec<HostAPIDefinition<H>>)
        ensures
            r@ == self.apis(),
    {
        &self.host_apis
    }
}

} // verus!
