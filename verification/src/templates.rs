//! Host classes: which members of a Python class become members of the
//! JavaScript constructor, and the host function ids they are registered
//! under.  `C` is the host's handle for a callable.
use vstd::prelude::*;
use std::collections::HashMap;
use crate::runtime::register_host_function;

verus! {

broadcast use vstd::std_specs::hash::group_hash_axioms;

/// A host class as a profile keeps it.
pub struct HostClassDefinition<C> {
    pub name: String,
    pub cls: C,
}

impl<C: Clone> HostClassDefinition<C> {
    /// A copy with the class handle copied.
    pub fn clone_ref(&self) -> (r: Self)
        ensures
            r.name@ == self.name@,
            cloned(self.cls, r.cls),
    {
        HostClassDefinition { name: self.name.clone(), cls: self.cls.clone() }
    }
}

/// What an attribute in a class's own namespace is.
pub enum AttributeKind<C> {
    /// A property, with its getter and setter where they are set.
    Property { getter: Option<C>, setter: Option<C> },
    /// Something callable: a method.
    Callable(C),
    /// Anything else.
    Other,
}

/// A member of a host class.
pub enum ClassMember<C> {
    Method { name: String, callable: C },
    Property { name: String, getter: Option<C>, setter: Option<C> },
}

/// Whether an attribute name is private: it starts with '_'.
pub open spec fn is_private_name(name: Seq<char>) -> bool {
    name.len() > 0 && name[0] == '_'
}

/// Whether an attribute becomes a member: its name is not private and it is
/// a property or callable.
pub open spec fn becomes_member<C>(a: (String, AttributeKind<C>)) -> bool {
    !is_private_name(a.0@) && !(a.1 is Other)
}

/// The member an attribute becomes.
pub open spec fn member_of<C>(a: (String, AttributeKind<C>)) -> ClassMember<C> {
    match a.1 {
        AttributeKind::Property { getter, setter } => ClassMember::Property { name: a.0, getter, setter },
        AttributeKind::Callable(c) => ClassMember::Method { name: a.0, callable: c },
        AttributeKind::Other => ClassMember::Method { name: a.0, callable: arbitrary() },
    }
}

/// The members of a class: its public properties and callables, in the
/// order of the class's namespace.
pub open spec fn class_members_of<C>(attrs: Seq<(String, AttributeKind<C>)>) -> Seq<ClassMember<C>>
    decreases attrs.len(),
{
    if attrs.len() == 0 {
        Seq::empty()
    } else {
        let rest = class_members_of(attrs.drop_last());
        if becomes_member(attrs.last()) {
            rest.push(member_of(attrs.last()))
        } else {
            rest
        }
    }
}

/// Whether a string starts with '_'.
fn starts_with_underscore(name: &str) -> (r: bool)
    ensures
        r == is_private_name(name@),
{
    let chars = crate::text::chars_of(name);
    chars.len() > 0 && chars[0] == '_'
}

/// The members of a host class, from the attributes of its own namespace.
pub fn class_members<C>(attrs: Vec<(String, AttributeKind<C>)>) -> (r: Vec<ClassMember<C>>)
    ensures
        r@ == class_members_of(attrs@),
{
    let ghost all = attrs@;
    let mut rest = attrs;
    let mut out: Vec<ClassMember<C>> = Vec::new();
    let ghost mut k: int = 0;
    while rest.len() > 0
        invariant
            0 <= k <= all.len(),
            rest@ == all.skip(k),
            out@ == class_members_of(all.take(k)),
        decreases rest@.len(),
    {
        let (name, kind) = rest.remove(0);
        proof {
            assert(all[k] == (name, kind));
            assert(all.take(k + 1).drop_last() =~= all.take(k));
            assert(all.take(k + 1).last() == (name, kind));
        }
        let private = starts_with_underscore(name.as_str());
        if !private {
            match kind {
                AttributeKind::Property { getter, setter } => {
                    out.push(ClassMember::Property { name, getter, setter });
                },
                AttributeKind::Callable(c) => {
                    out.push(ClassMember::Method { name, callable: c });
                },
                AttributeKind::Other => {},
            }
        }
        proof {
            assert(rest@ =~= all.skip(k + 1));
            k = k + 1;
        }
    }
    assert(all.take(all.len() as int) =~= all);
    out
}

/// A member of a host class with the host function ids its callables were
/// registered under.
#[derive(Debug)]
pub enum RegisteredClassMember {
    Method { name: String, id: u64 },
    Property { name: String, getter_id: Option<u64>, setter_id: Option<u64> },
}

/// The callables a member registers, in order: a method's callable, or a
/// property's getter then setter where they are set.
pub open spec fn member_callables<C>(m: ClassMember<C>) -> Seq<C> {
    match m {
        ClassMember::Method { callable, .. } => seq![callable],
        ClassMember::Property { getter, setter, .. } => (if getter is Some {
            seq![getter->0]
        } else {
            Seq::empty()
        }) + (if setter is Some {
            seq![setter->0]
        } else {
            Seq::empty()
        }),
    }
}

/// The callables the members register, in order.
pub open spec fn callables_of<C>(ms: Seq<ClassMember<C>>) -> Seq<C>
    decreases ms.len(),
{
    if ms.len() == 0 {
        Seq::empty()
    } else {
        callables_of(ms.drop_last()) + member_callables(ms.last())
    }
}

/// The number of callables the members register.
pub open spec fn total_callables<C>(ms: Seq<ClassMember<C>>) -> nat {
    callables_of(ms).len()
}

/// Whether `registry` holds `callables` under consecutive ids from `first`.
pub open spec fn holds_from<C>(registry: Map<u64, C>, first: int, callables: Seq<C>) -> bool {
    forall|j: int|
        #![trigger callables[j]]
        0 <= j < callables.len() ==> registry.contains_key((first + j) as u64) && registry[(first + j) as u64]
            == callables[j]
}

/// Whether `r` is `m` registered with its callables under consecutive ids
/// from `first`.
pub open spec fn registered_as<C>(m: ClassMember<C>, r: RegisteredClassMember, first: int) -> bool {
    match m {
        ClassMember::Method { name, .. } => r matches RegisteredClassMember::Method { name: n, id } && n@
            == name@ && id == first,
        ClassMember::Property { name, getter, setter } => r matches RegisteredClassMember::Property {
            name: n,
            getter_id,
            setter_id,
        } && n@ == name@ && getter_id == (if getter is Some {
            Some(first as u64)
        } else {
            None::<u64>
        }) && setter_id == (if setter is Some {
            Some((first + (if getter is Some { 1int } else { 0int })) as u64)
        } else {
            None::<u64>
        }),
    }
}

/// Registers the callables of the members as host functions, in order (a
/// property's getter before its setter), with consecutive ids.
pub fn register_class_members<C>(
    registry: &mut HashMap<u64, C>,
    next_id: &mut u64,
    members: Vec<ClassMember<C>>,
) -> (r: Vec<RegisteredClassMember>)
    requires
        *old(next_id) + total_callables(members@) <= u64::MAX,
    ensures
        r@.len() == members@.len(),
        forall|i: int| 0 <= i < members@.len() ==> registered_as(
            #[trigger] members@[i],
            r@[i],
            *old(next_id) + total_callables(members@.take(i)),
        ),
        *final(next_id) == *old(next_id) + total_callables(members@),
        holds_from(final(registry)@, *old(next_id) as int, callables_of(members@)),
        forall|id: u64| #[trigger] old(registry)@.contains_key(id) && !(*old(next_id) <= id < *final(next_id))
            ==> final(registry)@.contains_key(id) && final(registry)@[id] == old(registry)@[id],
{
    let ghost all = members@;
    let ghost start = *next_id;
    let mut rest = members;
    let mut out: Vec<RegisteredClassMember> = Vec::new();
    let ghost mut k: int = 0;
    while rest.len() > 0
        invariant
            0 <= k <= all.len(),
            rest@ == all.skip(k),
            out@.len() == k,
            forall|i: int| 0 <= i < k ==> registered_as(
                #[trigger] all[i],
                out@[i],
                start + total_callables(all.take(i)),
            ),
            *next_id == start + total_callables(all.take(k)),
            start == *old(next_id),
            start + total_callables(all) <= u64::MAX,
            holds_from(registry@, start as int, callables_of(all.take(k))),
            forall|id: u64| #[trigger] old(registry)@.contains_key(id) && !(start <= id < *next_id)
                ==> registry@.contains_key(id) && registry@[id] == old(registry)@[id],
        decreases rest@.len(),
    {
        let member = rest.remove(0);
        let ghost before = registry@;
        let ghost first: int = *next_id as int;
        let ghost k1: int = k + 1;
        let ghost prev = callables_of(all.take(k));
        let ghost next = callables_of(all.take(k1));
        let ghost added = member_callables(member);
        proof {
            assert(all[k] == member);
            assert(all.take(k1).drop_last() =~= all.take(k));
            assert(all.take(k1).last() == member);
            lemma_callables_prefix(all, k1);
            assert(next == prev + added);
        }
        let registered = register_member(registry, next_id, member);
        out.push(registered);
        proof {
            assert forall|j: int| 0 <= j < next.len() implies registry@.contains_key((start + j) as u64)
                && registry@[(start + j) as u64] == #[trigger] next[j] by {
                if j < prev.len() {
                    assert(next[j] == prev[j]);
                    assert(before.contains_key((start + j) as u64));
                } else {
                    assert(next[j] == added[j - prev.len()]);
                    assert(first + (j - prev.len()) == start + j);
                }
            }
            assert forall|j: int| 0 <= j < next.len() implies #[trigger] registry@.dom().contains((start + j) as u64) by {
                if j < prev.len() {
                    assert(next[j] == prev[j]);
                    assert(before.contains_key((start + j) as u64));
                } else {
                    assert(next[j] == added[j - prev.len()]);
                    assert(first + (j - prev.len()) == start + j);
                }
            }
            assert(holds_from(registry@, start as int, next));
            assert forall|i: int| 0 <= i < k1 implies registered_as(
                #[trigger] all[i],
                out@[i],
                start + total_callables(all.take(i)),
            ) by {
                if i == k {
                    assert(first == start + total_callables(all.take(k)));
                }
            }
            assert(rest@ =~= all.skip(k1));
            k = k1;
        }
    }
    assert(all.take(all.len() as int) =~= all);
    assert(callables_of(all.take(all.len() as int)) == callables_of(all));
    out
}

/// Registers one member's callables under consecutive ids from `next_id`.
fn register_member<C>(registry: &mut HashMap<u64, C>, next_id: &mut u64, member: ClassMember<C>) -> (r:
    RegisteredClassMember)
    requires
        *old(next_id) + member_callables(member).len() <= u64::MAX,
    ensures
        registered_as(member, r, *old(next_id) as int),
        *final(next_id) == *old(next_id) + member_callables(member).len(),
        holds_from(final(registry)@, *old(next_id) as int, member_callables(member)),
        forall|id: u64| #[trigger] old(registry)@.contains_key(id) && !(*old(next_id) <= id < *final(next_id))
            ==> final(registry)@.contains_key(id) && final(registry)@[id] == old(registry)@[id],
{
    let ghost added = member_callables(member);
    let ghost first = *next_id;
    match member {
        ClassMember::Method { name, callable } => {
            let id = register_host_function(registry, next_id, callable);
            RegisteredClassMember::Method { name, id }
        },
        ClassMember::Property { name, getter, setter } => {
            let getter_id = match getter {
                Some(g) => Some(register_host_function(registry, next_id, g)),
                None => None,
            };
            let ghost middle = registry@;
            let setter_id = match setter {
                Some(s) => Some(register_host_function(registry, next_id, s)),
                None => None,
            };
            proof {
                if getter is Some {
                    assert(middle.contains_key(first) && middle[first] == added[0]);
                }
            }
            RegisteredClassMember::Property { name, getter_id, setter_id }
        },
    }
}

/// The callables of a prefix are a prefix of those of the whole.
proof fn lemma_callables_prefix<C>(all: Seq<ClassMember<C>>, n: int)
    requires
        0 <= n <= all.len(),
    ensures
        callables_of(all.take(n)).len() <= callables_of(all).len(),
        forall|j: int| 0 <= j < callables_of(all.take(n)).len() ==> #[trigger] callables_of(all.take(n))[j]
            == callables_of(all)[j],
    decreases all.len() - n,
{
    if n < all.len() {
        lemma_callables_prefix(all, n + 1);
        assert(all.take(n + 1).drop_last() =~= all.take(n));
        let a = callables_of(all.take(n));
        let b = callables_of(all.take(n + 1));
        assert(b == a + member_callables(all.take(n + 1).last()));
        assert forall|j: int| 0 <= j < a.len() implies #[trigger] a[j] == callables_of(all)[j] by {
            assert(a[j] == b[j]);
        }
    } else {
        assert(all.take(n) =~= all);
    }
}

} // verus!
