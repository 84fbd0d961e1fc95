use v8_python::property::{
    parse_integrity_level, property_attribute_from_flags, DescriptorError, DescriptorShape,
    IntegrityLevel, PropertyAttribute, PropertyDescriptor, UnknownIntegrityLevel,
};

#[test]
fn attribute_flags_and_bits() {
    let none = PropertyAttribute::none();
    assert!(none.is_none());
    assert_eq!(none.bits(), 0);
    assert!(none.writable() && none.enumerable() && none.configurable());
    let ro = PropertyAttribute::read_only_attribute();
    assert!(ro.read_only());
    assert_eq!(ro.bits(), 1);
    assert_eq!(PropertyAttribute::dont_enum_attribute().bits(), 2);
    assert_eq!(PropertyAttribute::dont_delete_attribute().bits(), 4);
    let all = PropertyAttribute::new(true, true, true);
    assert_eq!(all.bits(), 7);
    assert!(!all.writable() && !all.enumerable() && !all.configurable());
}

#[test]
fn attribute_union() {
    let a = PropertyAttribute::read_only_attribute();
    let b = PropertyAttribute::dont_delete_attribute();
    let c = a.combine(b);
    assert_eq!(c.bits(), 5);
    assert_eq!(a.__or__(&b), b.__or__(&a));
    assert_eq!(c.combine(c), c);
    assert_eq!(c.combine(PropertyAttribute::none()), c);
    assert_eq!(PropertyAttribute::from_bits(c.bits()), c);
    assert_eq!(PropertyAttribute::from_bits(0xF8), PropertyAttribute::none());
}

#[test]
fn attribute_repr() {
    assert_eq!(PropertyAttribute::none().__repr__(), "PropertyAttribute()");
    assert_eq!(
        PropertyAttribute::new(true, false, true).__repr__(),
        "PropertyAttribute(read_only=True, dont_delete=True)"
    );
    assert_eq!(
        PropertyAttribute::new(true, true, true).__repr__(),
        "PropertyAttribute(read_only=True, dont_enum=True, dont_delete=True)"
    );
}

#[test]
fn attribute_from_keyword_flags() {
    let given = PropertyAttribute::dont_enum_attribute();
    let r = property_attribute_from_flags(Some(given), true, false, false);
    assert_eq!(r.bits(), 3);
    let s = property_attribute_from_flags(None, false, false, true);
    assert_eq!(s.bits(), 4);
}

#[test]
fn descriptor_validation() {
    assert!(matches!(
        PropertyDescriptor::new(Some(1), Some(2), None, None, None, None),
        Err(DescriptorError::MixedDataAndAccessor)
    ));
    assert!(matches!(
        PropertyDescriptor::new(None, None, Some(2), Some(true), None, None),
        Err(DescriptorError::MixedDataAndAccessor)
    ));
    assert!(matches!(
        PropertyDescriptor::<u8>::new(None, None, None, Some(false), None, None),
        Err(DescriptorError::WritableWithoutValue)
    ));
    let d = PropertyDescriptor::new(Some(5), None, None, Some(true), Some(false), None).unwrap();
    assert!(d.is_data_descriptor());
    assert!(!d.is_accessor_descriptor());
    assert_eq!(d.value(), Some(&5));
    assert_eq!(d.writable(), Some(true));
    assert_eq!(d.shape(), Ok(DescriptorShape::ValueWritable { writable: true }));
}

#[test]
fn descriptor_constructors_and_shapes() {
    let a = PropertyDescriptor::accessor(Some(1), None, Some(true), None);
    assert!(a.is_accessor_descriptor());
    assert!(a.has_get() && !a.has_set());
    assert_eq!(a.shape(), Ok(DescriptorShape::Accessor { has_get: true, has_set: false }));
    let d = PropertyDescriptor::data(9, None, None, Some(false));
    assert_eq!(d.shape(), Ok(DescriptorShape::Value));
    assert_eq!(d.configurable(), Some(false));
    let g = PropertyDescriptor::<u8>::new(None, None, None, None, Some(true), None).unwrap();
    assert_eq!(g.shape(), Ok(DescriptorShape::Generic));
    assert!(g.has_enumerable() && !g.has_configurable() && !g.has_writable() && !g.has_value());
}

#[test]
fn descriptor_repr() {
    let d = PropertyDescriptor::data(1, Some(false), None, Some(true));
    assert_eq!(d.__repr__(), "PropertyDescriptor(value=..., writable=False, configurable=True)");
    let e = PropertyDescriptor::<u8>::new(None, None, None, None, None, None).unwrap();
    assert_eq!(e.__repr__(), "PropertyDescriptor()");
    let a = PropertyDescriptor::accessor(Some(1), Some(2), Some(false), None);
    assert_eq!(a.__repr__(), "PropertyDescriptor(get=..., set=..., enumerable=False)");
}

#[test]
fn integrity_levels() {
    assert_eq!(parse_integrity_level("frozen"), Ok(IntegrityLevel::Frozen));
    assert_eq!(parse_integrity_level("freeze"), Ok(IntegrityLevel::Frozen));
    assert_eq!(parse_integrity_level("seal"), Ok(IntegrityLevel::Sealed));
    assert_eq!(parse_integrity_level("sealed"), Ok(IntegrityLevel::Sealed));
    assert_eq!(parse_integrity_level("Frozen"), Err(UnknownIntegrityLevel));
}
