use std::collections::HashMap;
use v8_python::builder::{take_isolate, AlreadyUsed, ContextBuilder};
use v8_python::host_api::{AtomicsDefinition, HostAPIDefinition, HostAPIKind};
use v8_python::profile::BaseProfile;
use v8_python::script::{
    compile_function_arguments, BadParameterNames, ParameterNames,
    cached_data_rejected, compile_options, module_origin, optional_value_to_string, run_failure,
    scope_origin, script_origin, CompileOptions, RunFailure, ScriptInfo,
};
use v8_python::settings::{MicrotasksPolicy, UnknownSetting};
use v8_python::templates::{class_members, register_class_members, AttributeKind, ClassMember, HostClassDefinition, RegisteredClassMember};
use v8_python::text::{decimal_string, is_blank_str, join_strings, str_eq};

#[test]
fn isolates_are_used_once() {
    let mut holder = Some(3u8);
    assert_eq!(take_isolate(&mut holder), Ok(3));
    assert_eq!(take_isolate(&mut holder), Err(AlreadyUsed));
}

#[test]
fn builder_gathers_and_builds_once() {
    let mut b: ContextBuilder<u8, i32, u8, u8, u8> = ContextBuilder::from_isolate(1);
    assert!(b.is_alive());
    b.set_global("answer", 42);
    b.add_host_function(7);
    assert_eq!(b.set_microtasks_policy("explicit"), Ok(()));
    assert_eq!(b.set_microtasks_policy("never"), Err(UnknownSetting::MicrotasksPolicy));
    assert_eq!(b.microtasks_policy(), Some(MicrotasksPolicy::Explicit));
    b.use_snapshot(2);
    let mut p: BaseProfile<u8, u8, u8> = BaseProfile::new();
    p.add_host_function(8);
    p.add_host_class(9);
    p.add_host_api(HostAPIDefinition::Timer);
    p.add_host_api(HostAPIDefinition::Atomics(AtomicsDefinition { allow_wait: true }));
    b.use_profile(&p);
    b.use_profile(&p);
    assert_eq!(b.host_functions().len(), 3);
    assert_eq!(b.host_classes().len(), 2);
    let kinds: Vec<HostAPIKind> = b.host_apis().iter().map(|a| a.kind()).collect();
    assert_eq!(kinds, vec![HostAPIKind::Timer, HostAPIKind::Atomics, HostAPIKind::Timer, HostAPIKind::Atomics]);
    assert!(matches!(b.host_apis()[3], HostAPIDefinition::Atomics(AtomicsDefinition { allow_wait: true })));
    assert_eq!(b.globals()[0].0, "answer");
    assert_eq!(b.snapshot_index(), Some(2));
    assert_eq!(b.take_isolate_for_build(), Ok(1));
    assert!(!b.is_alive());
    assert_eq!(b.take_isolate_for_build(), Err(AlreadyUsed));
}

#[test]
fn origins_and_options() {
    let o = script_origin("app.js", 5, Some("app.js.map"));
    assert_eq!((o.resource_name.as_str(), o.script_id, o.source_map_url.as_deref(), o.is_module), ("app.js", 5, Some("app.js.map"), false));
    let m = module_origin("./m.js");
    assert_eq!((m.resource_name.as_str(), m.script_id, m.is_module), ("./m.js", 0, true));
    let s = scope_origin(9);
    assert_eq!((s.resource_name.as_str(), s.script_id), ("<scope>", 9));
    assert_eq!(compile_options(true), CompileOptions::ConsumeCodeCache);
    assert_eq!(compile_options(false), CompileOptions::NoCompileOptions);
    assert!(!cached_data_rejected(None));
    assert!(cached_data_rejected(Some(true)));
    assert_eq!(optional_value_to_string(true, Some("x".to_string())), None);
    assert_eq!(run_failure(true), RunFailure::TimedOut);
    assert_eq!(run_failure(false), RunFailure::Threw);
}

#[test]
fn script_info() {
    let i = ScriptInfo::compiled("1+1".to_string(), 4, "<script>", None, None, Some("map".to_string()), true);
    assert_eq!(i.source(), "1+1");
    assert_eq!(i.script_id(), 4);
    assert_eq!(i.resource_name(), Some("<script>".to_string()));
    assert_eq!(i.source_map_url(), None);
    assert_eq!(i.source_mapping_url(), Some("map".to_string()));
    assert!(i.cached_data_rejected());
    let j = ScriptInfo::from_scope("x".to_string(), 2, None, None);
    assert_eq!(j.resource_name(), Some("<scope>".to_string()));
    assert!(!j.cached_data_rejected());
}

#[test]
fn host_class_members() {
    let members = class_members(vec![
        ("_private".to_string(), AttributeKind::Callable(1u8)),
        ("greet".to_string(), AttributeKind::Callable(2u8)),
        ("value".to_string(), AttributeKind::Property { getter: Some(3u8), setter: None }),
        ("CONSTANT".to_string(), AttributeKind::Other),
    ]);
    assert_eq!(members.len(), 2);
    assert!(matches!(&members[0], ClassMember::Method { name, callable: 2 } if name == "greet"));
    let mut registry: HashMap<u64, u8> = HashMap::new();
    let mut next = 10u64;
    let registered = register_class_members(&mut registry, &mut next, members);
    assert_eq!(next, 12);
    assert!(matches!(&registered[0], RegisteredClassMember::Method { id: 10, .. }));
    assert!(matches!(&registered[1], RegisteredClassMember::Property { getter_id: Some(11), setter_id: None, .. }));
    assert_eq!(registry.get(&10), Some(&2u8));
    assert_eq!(registry.get(&11), Some(&3u8));
    assert_eq!(registry.len(), 2);
    let both = vec![ClassMember::Property { name: "p".to_string(), getter: Some(7u8), setter: Some(8u8) }];
    let registered = register_class_members(&mut registry, &mut next, both);
    assert!(matches!(&registered[0], RegisteredClassMember::Property { getter_id: Some(12), setter_id: Some(13), .. }));
    assert_eq!(registry.get(&13), Some(&8u8));
    assert_eq!(next, 14);
    let d = HostClassDefinition { name: "Point".to_string(), cls: 1u8 };
    assert_eq!(d.clone_ref().name, "Point");
}

#[test]
fn text_helpers() {
    assert!(str_eq("abc", "abc"));
    assert!(!str_eq("abc", "abd"));
    assert!(is_blank_str(" \t\n\u{3000}"));
    assert!(!is_blank_str(" a "));
    assert_eq!(decimal_string(0), "0");
    assert_eq!(decimal_string(1234567890), "1234567890");
    assert_eq!(join_strings(&vec!["a".to_string(), "b".to_string()], ", "), "a, b");
    assert_eq!(join_strings(&vec![], ", "), "");
}

#[test]
fn compile_function_parameter_names() {
    assert_eq!(compile_function_arguments(ParameterNames::Missing), Ok(vec![]));
    assert_eq!(
        compile_function_arguments(ParameterNames::Names(vec!["a".to_string(), "b".to_string()])),
        Ok(vec!["a".to_string(), "b".to_string()])
    );
    let e = compile_function_arguments(ParameterNames::NotStrings).unwrap_err();
    assert_eq!(e, BadParameterNames);
    assert_eq!(e.message(), "compile_function() arguments must be a sequence of str.");
}
