//! Property attributes and property descriptors of JavaScript objects.
use vstd::prelude::*;
use crate::text::{append_str, str_eq};

verus! {

/// The attribute flags of an object property.
#[derive(Clone, Copy, Debug, PartialEq, Eq, Structural)]
pub struct PropertyAttribute {
    read_only: bool,
    dont_enum: bool,
    dont_delete: bool,
}

/// The engine's bit for a read-only property.
pub const READ_ONLY_BIT: u32 = 1;

/// The engine's bit for a property left out of enumeration.
pub const DONT_ENUM_BIT: u32 = 2;

/// The engine's bit for a property that cannot be deleted.
pub const DONT_DELETE_BIT: u32 = 4;

/// The engine's bits for a set of flags.
pub open spec fn attribute_bits(read_only: bool, dont_enum: bool, dont_delete: bool) -> u32 {
    (if read_only { 1u32 } else { 0u32 }) | (if dont_enum { 2u32 } else { 0u32 }) | (if dont_delete {
        4u32
    } else {
        0u32
    })
}

impl PropertyAttribute {
    /// Whether the property is read-only.
    pub closed spec fn spec_read_only(self) -> bool {
        self.read_only
    }

    /// Whether the property is left out of enumeration.
    pub closed spec fn spec_dont_enum(self) -> bool {
        self.dont_enum
    }

    /// Whether the property cannot be deleted.
    pub closed spec fn spec_dont_delete(self) -> bool {
        self.dont_delete
    }

    /// The engine's bits for this set of flags.
    pub open spec fn spec_bits(self) -> u32 {
        attribute_bits(self.spec_read_only(), self.spec_dont_enum(), self.spec_dont_delete())
    }

    /// The union of two sets of flags.
    pub open spec fn spec_combine(self, other: Self) -> Self {
        PropertyAttribute::from_flags(
            self.spec_read_only() || other.spec_read_only(),
            self.spec_dont_enum() || other.spec_dont_enum(),
            self.spec_dont_delete() || other.spec_dont_delete(),
        )
    }

    /// The set with exactly the given flags.
    pub closed spec fn from_flags(read_only: bool, dont_enum: bool, dont_delete: bool) -> Self {
        PropertyAttribute { read_only, dont_enum, dont_delete }
    }

    /// The set whose flags the engine's bits hold.
    pub open spec fn spec_from_bits(bits: u32) -> Self {
        PropertyAttribute::from_flags(bits & 1 != 0, bits & 2 != 0, bits & 4 != 0)
    }

    /// The flags of `from_flags` are the ones given, and a set is determined
    /// by its flags.
    pub broadcast proof fn from_flags_fields(read_only: bool, dont_enum: bool, dont_delete: bool)
        ensures
            #[trigger] PropertyAttribute::from_flags(read_only, dont_enum, dont_delete).spec_read_only()
                == read_only,
            PropertyAttribute::from_flags(read_only, dont_enum, dont_delete).spec_dont_enum() == dont_enum,
            PropertyAttribute::from_flags(read_only, dont_enum, dont_delete).spec_dont_delete()
                == dont_delete,
    {
    }

    /// A set of flags is the set built from its own flags.
    pub broadcast proof fn flags_determine(a: Self)
        ensures
            #[trigger] PropertyAttribute::from_flags(
                a.spec_read_only(),
                a.spec_dont_enum(),
                a.spec_dont_delete(),
            ) == a,
    {
    }

    /// A set with the given flags.
    pub fn new(read_only: bool, dont_enum: bool, dont_delete: bool) -> (r: Self)
        ensures
            r == PropertyAttribute::from_flags(read_only, dont_enum, dont_delete),
            r.spec_read_only() == read_only,
            r.spec_dont_enum() == dont_enum,
            r.spec_dont_delete() == dont_delete,
    {
        PropertyAttribute { read_only, dont_enum, dont_delete }
    }

    /// The set with no flags.
    pub fn none() -> (r: Self)
        ensures
            r == PropertyAttribute::from_flags(false, false, false),
            !r.spec_read_only() && !r.spec_dont_enum() && !r.spec_dont_delete(),
    {
        PropertyAttribute { read_only: false, dont_enum: false, dont_delete: false }
    }

    /// The set with only the read-only flag.
    pub fn read_only_attribute() -> (r: Self)
        ensures
            r == PropertyAttribute::from_flags(true, false, false),
    {
        assert(1u32 & 1 != 0 && 1u32 & 2 == 0 && 1u32 & 4 == 0) by (bit_vector);
        PropertyAttribute::from_bits(READ_ONLY_BIT)
    }

    /// The set with only the dont-enum flag.
    pub fn dont_enum_attribute() -> (r: Self)
        ensures
            r == PropertyAttribute::from_flags(false, true, false),
    {
        assert(2u32 & 1 == 0 && 2u32 & 2 != 0 && 2u32 & 4 == 0) by (bit_vector);
        PropertyAttribute::from_bits(DONT_ENUM_BIT)
    }

    /// The set with only the dont-delete flag.
    pub fn dont_delete_attribute() -> (r: Self)
        ensures
            r == PropertyAttribute::from_flags(false, false, true),
    {
        assert(4u32 & 1 == 0 && 4u32 & 2 == 0 && 4u32 & 4 != 0) by (bit_vector);
        PropertyAttribute::from_bits(DONT_DELETE_BIT)
    }

    /// The flags that the engine's bits hold; other bits are ignored.
    pub fn from_bits(bits: u32) -> (r: Self)
        ensures
            r == PropertyAttribute::spec_from_bits(bits),
            r.spec_read_only() == (bits & 1 != 0),
            r.spec_dont_enum() == (bits & 2 != 0),
            r.spec_dont_delete() == (bits & 4 != 0),
    {
        PropertyAttribute {
            read_only: bits & READ_ONLY_BIT != 0,
            dont_enum: bits & DONT_ENUM_BIT != 0,
            dont_delete: bits & DONT_DELETE_BIT != 0,
        }
    }

    /// The engine's bits for this set.
    pub fn bits(&self) -> (r: u32)
        ensures
            r == self.spec_bits(),
    {
        let read_only: u32 = if self.read_only {
            READ_ONLY_BIT
        } else {
            0
        };
        let dont_enum: u32 = if self.dont_enum {
            DONT_ENUM_BIT
        } else {
            0
        };
        let dont_delete: u32 = if self.dont_delete {
            DONT_DELETE_BIT
        } else {
            0
        };
        read_only | dont_enum | dont_delete
    }

    /// Whether the property is read-only.
    pub fn read_only(&self) -> (r: bool)
        ensures
            r == self.spec_read_only(),
    {
        self.read_only
    }

    /// Whether the property is left out of enumeration.
    pub fn dont_enum(&self) -> (r: bool)
        ensures
            r == self.spec_dont_enum(),
    {
        self.dont_enum
    }

    /// Whether the property cannot be deleted.
    pub fn dont_delete(&self) -> (r: bool)
        ensures
            r == self.spec_dont_delete(),
    {
        self.dont_delete
    }

    /// Whether the property is writable: it is not read-only.
    pub fn writable(&self) -> (r: bool)
        ensures
            r == !self.spec_read_only(),
    {
        !self.read_only
    }

    /// Whether the property is enumerable.
    pub fn enumerable(&self) -> (r: bool)
        ensures
            r == !self.spec_dont_enum(),
    {
        !self.dont_enum
    }

    /// Whether the property is configurable: it can be deleted.
    pub fn configurable(&self) -> (r: bool)
        ensures
            r == !self.spec_dont_delete(),
    {
        !self.dont_delete
    }

    /// Whether no flag is set.
    pub fn is_none(&self) -> (r: bool)
        ensures
            r == (!self.spec_read_only() && !self.spec_dont_enum() && !self.spec_dont_delete()),
            r == (self.spec_bits() == 0),
    {
        proof {
            let (a, b, c) = (self.read_only, self.dont_enum, self.dont_delete);
            assert((!a && !b && !c) == (attribute_bits(a, b, c) == 0)) by (bit_vector);
        }
        !self.read_only && !self.dont_enum && !self.dont_delete
    }

    /// The union of two sets of flags.
    pub fn combine(self, other: Self) -> (r: Self)
        ensures
            r == self.spec_combine(other),
            r.spec_read_only() == (self.spec_read_only() || other.spec_read_only()),
            r.spec_dont_enum() == (self.spec_dont_enum() || other.spec_dont_enum()),
            r.spec_dont_delete() == (self.spec_dont_delete() || other.spec_dont_delete()),
    {
        PropertyAttribute {
            read_only: self.read_only || other.read_only,
            dont_enum: self.dont_enum || other.dont_enum,
            dont_delete: self.dont_delete || other.dont_delete,
        }
    }

    /// The union of two sets of flags (Python's `|`).
    pub fn __or__(&self, other: &Self) -> (r: Self)
        ensures
            r == self.spec_combine(*other),
    {
        self.combine(*other)
    }

    /// A representation naming the flags that are set, in a fixed order.
    pub fn __repr__(&self) -> (r: String)
        ensures
            r@ == attribute_repr(self.spec_read_only(), self.spec_dont_enum(), self.spec_dont_delete()),
    {
        let mut parts: Vec<&'static str> = Vec::new();
        if self.read_only {
            parts.push("read_only=True");
        }
        if self.dont_enum {
            parts.push("dont_enum=True");
        }
        if self.dont_delete {
            parts.push("dont_delete=True");
        }
        if parts.len() == 0 {
            return String::from_str("PropertyAttribute()");
        }
        let mut r = String::from_str("PropertyAttribute(");
        join_parts_into(&mut r, &parts);
        append_str(&mut r, ")");
        proof {
            assert(part_views(parts@) =~= attribute_parts(
                self.read_only,
                self.dont_enum,
                self.dont_delete,
            ));
        }
        r
    }
}

/// The texts of a list of static strings.
pub open spec fn part_views(parts: Seq<&'static str>) -> Seq<Seq<char>> {
    parts.map_values(|p: &'static str| p@)
}

/// Appends `text` to `parts` when `cond` holds.
fn push_part_if(parts: &mut Vec<&'static str>, cond: bool, text: &'static str)
    ensures
        part_views(final(parts)@) == part_views(old(parts)@) + (if cond {
            seq![text@]
        } else {
            Seq::<Seq<char>>::empty()
        }),
{
    if cond {
        parts.push(text);
    }
    assert(part_views(parts@) =~= part_views(old(parts)@) + (if cond {
        seq![text@]
    } else {
        Seq::<Seq<char>>::empty()
    }));
}

/// Appends the text of an optional flag to `parts`, if the flag is present.
fn push_flag_part(parts: &mut Vec<&'static str>, flag: Option<bool>, when_true: &'static str, when_false: &'static str)
    ensures
        part_views(final(parts)@) == part_views(old(parts)@) + flag_part(flag, when_true@, when_false@),
{
    match flag {
        Some(true) => parts.push(when_true),
        Some(false) => parts.push(when_false),
        None => {},
    }
    assert(part_views(parts@) =~= part_views(old(parts)@) + flag_part(flag, when_true@, when_false@));
}

/// `parts` joined with ", ".
pub open spec fn join_comma(parts: Seq<Seq<char>>) -> Seq<char>
    decreases parts.len(),
{
    if parts.len() == 0 {
        Seq::empty()
    } else if parts.len() == 1 {
        parts[0]
    } else {
        join_comma(parts.drop_last()) + ", "@ + parts.last()
    }
}

/// Appends `parts` joined with ", " to `out`.
fn join_parts_into(out: &mut String, parts: &Vec<&'static str>)
    ensures
        final(out)@ == old(out)@ + join_comma(part_views(parts@)),
{
    let ghost views = part_views(parts@);
    let ghost start = out@;
    for i in 0..parts.len()
        invariant
            views == part_views(parts@),
            out@ == start + join_comma(views.take(i as int)),
    {
        if i > 0 {
            append_str(out, ", ");
        }
        append_str(out, parts[i]);
        proof {
            let t = views.take(i + 1);
            assert(t.drop_last() =~= views.take(i as int));
            assert(t.last() == parts@[i as int]@);
            if i == 0 {
                assert(views.take(0) =~= Seq::<Seq<char>>::empty());
            }
        }
    }
    assert(views.take(parts.len() as int) =~= views);
}

/// The flag texts of a representation, in order.
pub open spec fn attribute_parts(read_only: bool, dont_enum: bool, dont_delete: bool) -> Seq<Seq<char>> {
    (if read_only { seq!["read_only=True"@] } else { Seq::empty() }) + (if dont_enum {
        seq!["dont_enum=True"@]
    } else {
        Seq::empty()
    }) + (if dont_delete { seq!["dont_delete=True"@] } else { Seq::empty() })
}

/// The representation of a set of flags.
pub open spec fn attribute_repr(read_only: bool, dont_enum: bool, dont_delete: bool) -> Seq<char> {
    let parts = attribute_parts(read_only, dont_enum, dont_delete);
    if parts.len() == 0 {
        "PropertyAttribute()"@
    } else {
        "PropertyAttribute("@ + join_comma(parts) + ")"@
    }
}

/// The attributes for a property definition: the flags passed one by one,
/// united with a given set of attributes, if any.
pub fn property_attribute_from_flags(
    provided: Option<PropertyAttribute>,
    read_only: bool,
    dont_enum: bool,
    dont_delete: bool,
) -> (r: PropertyAttribute)
    ensures
        r == match provided {
            Some(p) => PropertyAttribute::from_flags(read_only, dont_enum, dont_delete).spec_combine(p),
            None => PropertyAttribute::from_flags(read_only, dont_enum, dont_delete),
        },
{
    let attribute = PropertyAttribute::new(read_only, dont_enum, dont_delete);
    match provided {
        Some(p) => attribute.combine(p),
        None => attribute,
    }
}

/// Uniting attribute sets is commutative, associative and idempotent, and
/// the empty set is its identity.
pub proof fn combine_laws(a: PropertyAttribute, b: PropertyAttribute, c: PropertyAttribute)
    ensures
        a.spec_combine(b) == b.spec_combine(a),
        a.spec_combine(b).spec_combine(c) == a.spec_combine(b.spec_combine(c)),
        a.spec_combine(a) == a,
        a.spec_combine(PropertyAttribute::from_flags(false, false, false)) == a,
{
    broadcast use PropertyAttribute::from_flags_fields, PropertyAttribute::flags_determine;

}

/// The bits of a union are the bitwise or of the bits, each flag has its own
/// bit, and reading a set's bits back gives the same set.
pub proof fn bits_laws(a: PropertyAttribute, b: PropertyAttribute)
    ensures
        a.spec_combine(b).spec_bits() == a.spec_bits() | b.spec_bits(),
        a.spec_bits() & 1 != 0 <==> a.spec_read_only(),
        a.spec_bits() & 2 != 0 <==> a.spec_dont_enum(),
        a.spec_bits() & 4 != 0 <==> a.spec_dont_delete(),
        a.spec_bits() < 8,
        PropertyAttribute::spec_from_bits(a.spec_bits()) == a,
{
    broadcast use PropertyAttribute::from_flags_fields, PropertyAttribute::flags_determine;

    let (x, y, z) = (a.spec_read_only(), a.spec_dont_enum(), a.spec_dont_delete());
    let (u, v, w) = (b.spec_read_only(), b.spec_dont_enum(), b.spec_dont_delete());
    assert(attribute_bits(x || u, y || v, z || w) == attribute_bits(x, y, z) | attribute_bits(u, v, w))
        by (bit_vector);
    assert(attribute_bits(x, y, z) & 1 != 0 <==> x) by (bit_vector);
    assert(attribute_bits(x, y, z) & 2 != 0 <==> y) by (bit_vector);
    assert(attribute_bits(x, y, z) & 4 != 0 <==> z) by (bit_vector);
    assert(attribute_bits(x, y, z) < 8) by (bit_vector);
}

/// An ECMAScript property descriptor as `Object.defineProperty` takes it.
/// `P` is the host's handle for a value.
pub struct PropertyDescriptor<P> {
    value: Option<P>,
    get: Option<P>,
    set: Option<P>,
    writable: Option<bool>,
    enumerable: Option<bool>,
    configurable: Option<bool>,
}

/// Why a descriptor was refused.
#[derive(Clone, Copy, Debug, PartialEq, Eq, Structural)]
pub enum DescriptorError {
    /// It has both data fields (value, writable) and accessor fields (get, set).
    MixedDataAndAccessor,
    /// It has a writable flag but no value.
    WritableWithoutValue,
}

/// What a descriptor turns into for the engine.
#[derive(Clone, Copy, Debug, PartialEq, Eq, Structural)]
pub enum DescriptorShape {
    /// A getter and a setter, each undefined where absent.
    Accessor { has_get: bool, has_set: bool },
    /// A value with a writable flag.
    ValueWritable { writable: bool },
    /// A value alone.
    Value,
    /// No value and no accessor.
    Generic,
}

impl<P> PropertyDescriptor<P> {
    /// The value field.
    pub closed spec fn spec_value(&self) -> Option<P> {
        self.value
    }

    /// The getter field.
    pub closed spec fn spec_get(&self) -> Option<P> {
        self.get
    }

    /// The setter field.
    pub closed spec fn spec_set(&self) -> Option<P> {
        self.set
    }

    /// The writable flag.
    pub closed spec fn spec_writable(&self) -> Option<bool> {
        self.writable
    }

    /// The enumerable flag.
    pub closed spec fn spec_enumerable(&self) -> Option<bool> {
        self.enumerable
    }

    /// The configurable flag.
    pub closed spec fn spec_configurable(&self) -> Option<bool> {
        self.configurable
    }

    /// Whether it has a data field.
    pub open spec fn spec_is_data(&self) -> bool {
        self.spec_value() is Some || self.spec_writable() is Some
    }

    /// Whether it has an accessor field.
    pub open spec fn spec_is_accessor(&self) -> bool {
        self.spec_get() is Some || self.spec_set() is Some
    }

    /// The error a descriptor with these fields is refused with, if any.
    pub open spec fn spec_validation(&self) -> Option<DescriptorError> {
        if self.spec_is_data() && self.spec_is_accessor() {
            Some(DescriptorError::MixedDataAndAccessor)
        } else if self.spec_writable() is Some && self.spec_value() is None {
            Some(DescriptorError::WritableWithoutValue)
        } else {
            None
        }
    }

    /// What the descriptor turns into for the engine.
    pub open spec fn spec_shape(&self) -> DescriptorShape {
        if self.spec_is_accessor() {
            DescriptorShape::Accessor {
                has_get: self.spec_get() is Some,
                has_set: self.spec_set() is Some,
            }
        } else if self.spec_value() is Some {
            match self.spec_writable() {
                Some(w) => DescriptorShape::ValueWritable { writable: w },
                None => DescriptorShape::Value,
            }
        } else {
            DescriptorShape::Generic
        }
    }

    /// A descriptor with the given fields, refused when it mixes data and
    /// accessor fields or has a writable flag without a value.
    pub fn new(
        value: Option<P>,
        get: Option<P>,
        set: Option<P>,
        writable: Option<bool>,
        enumerable: Option<bool>,
        configurable: Option<bool>,
    ) -> (r: Result<Self, DescriptorError>)
        ensures
            ({
                let mixed = (value is Some || writable is Some) && (get is Some || set is Some);
                if mixed {
                    r == Err::<Self, DescriptorError>(DescriptorError::MixedDataAndAccessor)
                } else if writable is Some && value is None {
                    r == Err::<Self, DescriptorError>(DescriptorError::WritableWithoutValue)
                } else {
                    r matches Ok(d) && d.spec_value() == value && d.spec_get() == get
                        && d.spec_set() == set && d.spec_writable() == writable
                        && d.spec_enumerable() == enumerable && d.spec_configurable() == configurable
                }
            }),
    {
        let descriptor = PropertyDescriptor { value, get, set, writable, enumerable, configurable };
        match descriptor.validate() {
            Ok(()) => Ok(descriptor),
            Err(e) => Err(e),
        }
    }

    /// A data descriptor.
    pub fn data(value: P, writable: Option<bool>, enumerable: Option<bool>, configurable: Option<bool>) -> (r: Self)
        ensures
            r.spec_value() == Some(value),
            r.spec_get() is None,
            r.spec_set() is None,
            r.spec_writable() == writable,
            r.spec_enumerable() == enumerable,
            r.spec_configurable() == configurable,
            r.spec_validation() is None,
    {
        PropertyDescriptor { value: Some(value), get: None, set: None, writable, enumerable, configurable }
    }

    /// An accessor descriptor.
    pub fn accessor(get: Option<P>, set: Option<P>, enumerable: Option<bool>, configurable: Option<bool>) -> (r: Self)
        ensures
            r.spec_value() is None,
            r.spec_get() == get,
            r.spec_set() == set,
            r.spec_writable() is None,
            r.spec_enumerable() == enumerable,
            r.spec_configurable() == configurable,
            r.spec_validation() is None,
    {
        PropertyDescriptor { value: None, get, set, writable: None, enumerable, configurable }
    }

    /// The value field.
    pub fn value(&self) -> (r: Option<&P>)
        ensures
            r matches Some(v) ==> self.spec_value() == Some(*v),
            r is None <==> self.spec_value() is None,
    {
        match &self.value {
            Some(v) => Some(v),
            None => None,
        }
    }

    /// The getter field.
    pub fn get(&self) -> (r: Option<&P>)
        ensures
            r matches Some(v) ==> self.spec_get() == Some(*v),
            r is None <==> self.spec_get() is None,
    {
        match &self.get {
            Some(v) => Some(v),
            None => None,
        }
    }

    /// The setter field.
    pub fn set(&self) -> (r: Option<&P>)
        ensures
            r matches Some(v) ==> self.spec_set() == Some(*v),
            r is None <==> self.spec_set() is None,
    {
        match &self.set {
            Some(v) => Some(v),
            None => None,
        }
    }

    /// The writable flag.
    pub fn writable(&self) -> (r: Option<bool>)
        ensures
            r == self.spec_writable(),
    {
        self.writable
    }

    /// The enumerable flag.
    pub fn enumerable(&self) -> (r: Option<bool>)
        ensures
            r == self.spec_enumerable(),
    {
        self.enumerable
    }

    /// The configurable flag.
    pub fn configurable(&self) -> (r: Option<bool>)
        ensures
            r == self.spec_configurable(),
    {
        self.configurable
    }

    /// Whether it has a value field.
    pub fn has_value(&self) -> (r: bool)
        ensures
            r == self.spec_value() is Some,
    {
        self.value.is_some()
    }

    /// Whether it has a getter.
    pub fn has_get(&self) -> (r: bool)
        ensures
            r == self.spec_get() is Some,
    {
        self.get.is_some()
    }

    /// Whether it has a setter.
    pub fn has_set(&self) -> (r: bool)
        ensures
            r == self.spec_set() is Some,
    {
        self.set.is_some()
    }

    /// Whether it has a writable flag.
    pub fn has_writable(&self) -> (r: bool)
        ensures
            r == self.spec_writable() is Some,
    {
        self.writable.is_some()
    }

    /// Whether it has an enumerable flag.
    pub fn has_enumerable(&self) -> (r: bool)
        ensures
            r == self.spec_enumerable() is Some,
    {
        self.enumerable.is_some()
    }

    /// Whether it has a configurable flag.
    pub fn has_configurable(&self) -> (r: bool)
        ensures
            r == self.spec_configurable() is Some,
    {
        self.configurable.is_some()
    }

    /// Whether it is a data descriptor: it has a value or a writable flag.
    pub fn is_data_descriptor(&self) -> (r: bool)
        ensures
            r == self.spec_is_data(),
    {
        self.value.is_some() || self.writable.is_some()
    }

    /// Whether it is an accessor descriptor: it has a getter or a setter.
    pub fn is_accessor_descriptor(&self) -> (r: bool)
        ensures
            r == self.spec_is_accessor(),
    {
        self.get.is_some() || self.set.is_some()
    }

    /// Checks the descriptor: data and accessor fields do not mix, and a
    /// writable flag comes with a value.
    pub fn validate(&self) -> (r: Result<(), DescriptorError>)
        ensures
            match self.spec_validation() {
                Some(e) => r == Err::<(), DescriptorError>(e),
                None => r == Ok::<(), DescriptorError>(()),
            },
    {
        if self.is_data_descriptor() && self.is_accessor_descriptor() {
            return Err(DescriptorError::MixedDataAndAccessor);
        }
        if self.writable.is_some() && self.value.is_none() {
            return Err(DescriptorError::WritableWithoutValue);
        }
        Ok(())
    }

    /// What the descriptor turns into for the engine, once it is valid; the
    /// enumerable and configurable flags are set on it as they are given.
    pub fn shape(&self) -> (r: Result<DescriptorShape, DescriptorError>)
        ensures
            match self.spec_validation() {
                Some(e) => r == Err::<DescriptorShape, DescriptorError>(e),
                None => r == Ok::<DescriptorShape, DescriptorError>(self.spec_shape()),
            },
    {
        match self.validate() {
            Err(e) => Err(e),
            Ok(()) => {
                if self.is_accessor_descriptor() {
                    Ok(DescriptorShape::Accessor { has_get: self.get.is_some(), has_set: self.set.is_some() })
                } else if self.value.is_some() {
                    match self.writable {
                        Some(w) => Ok(DescriptorShape::ValueWritable { writable: w }),
                        None => Ok(DescriptorShape::Value),
                    }
                } else {
                    Ok(DescriptorShape::Generic)
                }
            },
        }
    }

    /// A representation naming the fields that are present, in a fixed
    /// order; values and accessors are shown as "...".
    pub fn __repr__(&self) -> (r: String)
        ensures
            r@ == descriptor_repr(
                self.spec_value() is Some,
                self.spec_get() is Some,
                self.spec_set() is Some,
                self.spec_writable(),
                self.spec_enumerable(),
                self.spec_configurable(),
            ),
    {
        let mut parts: Vec<&'static str> = Vec::new();
        push_part_if(&mut parts, self.value.is_some(), "value=...");
        push_part_if(&mut parts, self.get.is_some(), "get=...");
        push_part_if(&mut parts, self.set.is_some(), "set=...");
        push_flag_part(&mut parts, self.writable, "writable=True", "writable=False");
        push_flag_part(&mut parts, self.enumerable, "enumerable=True", "enumerable=False");
        push_flag_part(&mut parts, self.configurable, "configurable=True", "configurable=False");
        assert(part_views(parts@) =~= descriptor_parts(
            self.value is Some,
            self.get is Some,
            self.set is Some,
            self.writable,
            self.enumerable,
            self.configurable,
        ));
        if parts.len() == 0 {
            return String::from_str("PropertyDescriptor()");
        }
        let mut r = String::from_str("PropertyDescriptor(");
        join_parts_into(&mut r, &parts);
        append_str(&mut r, ")");
        r
    }
}

/// The text of an optional flag in a representation, if it is present.
pub open spec fn flag_part(flag: Option<bool>, when_true: Seq<char>, when_false: Seq<char>) -> Seq<
    Seq<char>,
> {
    match flag {
        Some(true) => seq![when_true],
        Some(false) => seq![when_false],
        None => Seq::empty(),
    }
}

/// The field texts of a descriptor's representation, in order.
pub open spec fn descriptor_parts(
    has_value: bool,
    has_get: bool,
    has_set: bool,
    writable: Option<bool>,
    enumerable: Option<bool>,
    configurable: Option<bool>,
) -> Seq<Seq<char>> {
    (if has_value { seq!["value=..."@] } else { Seq::empty() }) + (if has_get {
        seq!["get=..."@]
    } else {
        Seq::empty()
    }) + (if has_set { seq!["set=..."@] } else { Seq::empty() }) + flag_part(
        writable,
        "writable=True"@,
        "writable=False"@,
    ) + flag_part(enumerable, "enumerable=True"@, "enumerable=False"@) + flag_part(
        configurable,
        "configurable=True"@,
        "configurable=False"@,
    )
}

/// The representation of a descriptor.
pub open spec fn descriptor_repr(
    has_value: bool,
    has_get: bool,
    has_set: bool,
    writable: Option<bool>,
    enumerable: Option<bool>,
    configurable: Option<bool>,
) -> Seq<char> {
    let parts = descriptor_parts(has_value, has_get, has_set, writable, enumerable, configurable);
    if parts.len() == 0 {
        "PropertyDescriptor()"@
    } else {
        "PropertyDescriptor("@ + join_comma(parts) + ")"@
    }
}

/// A descriptor that was accepted never has both data and accessor fields,
/// and never a writable flag without a value; the data and accessor
/// constructors always give such descriptors.
pub proof fn accepted_descriptors_are_consistent<P>(d: PropertyDescriptor<P>)
    requires
        d.spec_validation() is None,
    ensures
        !(d.spec_is_data() && d.spec_is_accessor()),
        d.spec_writable() is Some ==> d.spec_value() is Some,
        d.spec_is_accessor() ==> d.spec_shape() is Accessor,
        d.spec_is_data() ==> (d.spec_shape() is Value || d.spec_shape() is ValueWritable),
{
}

/// An object's integrity level.
#[derive(Clone, Copy, Debug, PartialEq, Eq, Structural)]
pub enum IntegrityLevel {
    Frozen,
    Sealed,
}

/// The integrity level was neither frozen nor sealed.
#[derive(Clone, Copy, Debug, PartialEq, Eq, Structural)]
pub struct UnknownIntegrityLevel;

/// The integrity level a name stands for, if any.
pub open spec fn integrity_level_named(name: Seq<char>) -> Option<IntegrityLevel> {
    if name == "frozen"@ || name == "freeze"@ {
        Some(IntegrityLevel::Frozen)
    } else if name == "sealed"@ || name == "seal"@ {
        Some(IntegrityLevel::Sealed)
    } else {
        None
    }
}

/// Parses an integrity level: "frozen" or "freeze", "sealed" or "seal".
pub fn parse_integrity_level(level: &str) -> (r: Result<IntegrityLevel, UnknownIntegrityLevel>)
    ensures
        match integrity_level_named(level@) {
            Some(l) => r == Ok::<IntegrityLevel, UnknownIntegrityLevel>(l),
            None => r == Err::<IntegrityLevel, UnknownIntegrityLevel>(UnknownIntegrityLevel),
        },
{
    if str_eq(level, "frozen") || str_eq(level, "freeze") {
        Ok(IntegrityLevel::Frozen)
    } else if str_eq(level, "sealed") || str_eq(level, "seal") {
        Ok(IntegrityLevel::Sealed)
    } else {
        Err(UnknownIntegrityLevel)
    }
}

} // verus!
