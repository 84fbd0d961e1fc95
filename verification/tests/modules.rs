use v8_python::modules::{
    after_evaluation_action, bad_load_message, check_namespace_readable, dynamic_import_action,
    ensure_compatible, import_attributes, import_resolver, module_status_name, referrer_name,
    resolver_style, unresolved_message, uncompilable_message, EvaluatedAction, ForeignModule,
    ImportAction, ImportAttributeLayout, ImportEntry, ImportError, ModuleCache, ModuleResolver,
    ModuleStatus, NotInstantiated, ResolveStep, ResolverStyle,
};

#[test]
fn statuses() {
    assert_eq!(module_status_name(ModuleStatus::Evaluating), "evaluating");
    assert_eq!(check_namespace_readable(ModuleStatus::Instantiating), Err(NotInstantiated));
    assert_eq!(check_namespace_readable(ModuleStatus::Errored), Ok(()));
    assert_eq!(ensure_compatible(1, 2), Err(ForeignModule));
    assert_eq!(ensure_compatible(2, 2), Ok(()));
}

#[test]
fn resolver_lookup_order() {
    let mut r: ModuleResolver<u8> = ModuleResolver::new("main".to_string(), 1);
    r.add_source("dep".to_string(), "export default 1".to_string());
    r.add_module("lib".to_string(), 2);
    assert!(matches!(r.resolve_step("main"), ResolveStep::Known(1)));
    assert!(matches!(r.resolve_step("dep"), ResolveStep::Compile(ref s) if s == "export default 1"));
    assert!(matches!(r.resolve_step("other"), ResolveStep::AskLoader));
    r.add_source("lib".to_string(), "ignored".to_string());
    assert!(matches!(r.resolve_step("lib"), ResolveStep::Known(2)));
    assert_eq!(r.dependencies("main"), vec![2]);
}

#[test]
fn instantiation_imports() {
    let ok = import_resolver(
        "main".to_string(),
        1u8,
        7,
        vec![
            ("a".to_string(), ImportEntry::Source("x".to_string())),
            ("b".to_string(), ImportEntry::Module { module: 2, isolate_id: 7 }),
        ],
    );
    let r = ok.ok().unwrap();
    assert_eq!(r.dependencies("main"), vec![2]);
    assert!(matches!(r.resolve_step("b"), ResolveStep::Known(2)));
    assert!(matches!(r.resolve_step("main"), ResolveStep::Known(1)));
    assert!(matches!(r.resolve_step("a"), ResolveStep::Compile(ref s) if s == "x"));
    assert!(matches!(r.resolve_step("c"), ResolveStep::AskLoader));
    let foreign = import_resolver("main".to_string(), 1u8, 7, vec![("b".to_string(), ImportEntry::Module { module: 2, isolate_id: 8 })]);
    assert!(matches!(foreign, Err(ImportError::ForeignModule)));
    let bad = import_resolver(
        "main".to_string(),
        1u8,
        7,
        vec![("c".to_string(), ImportEntry::Other { kind_name: "int".to_string() })],
    );
    match bad {
        Err(ImportError::BadEntry(m)) => assert_eq!(m, "Import 'c' must be a source string or v8.Module, got 'int'."),
        _ => panic!("expected a bad entry"),
    }
}

#[test]
fn loader_cache() {
    let mut c: ModuleCache<u8> = ModuleCache::new();
    c.remember_module("./a.js", "file:///a.js", 42, 5);
    assert_eq!(c.cached_module("./a.js"), Some(5));
    assert_eq!(c.cached_module("file:///a.js"), Some(5));
    assert_eq!(c.cached_module("b"), None);
    assert_eq!(c.module_specifier(42), Some("file:///a.js".to_string()));
    assert_eq!(c.module_specifier(1), None);
}

#[test]
fn loader_messages_and_styles() {
    assert_eq!(resolver_style(true, true), ResolverStyle::Call);
    assert_eq!(resolver_style(false, true), ResolverStyle::Get);
    assert_eq!(resolver_style(false, false), ResolverStyle::Index);
    assert_eq!(bad_load_message("int"), "ModuleLoader resolver must return a source string, v8.Module, or None, got 'int'.");
    assert_eq!(unresolved_message("x"), "Cannot resolve module 'x'.");
    assert_eq!(uncompilable_message("x"), "Failed to compile module 'x'.");
    assert_eq!(referrer_name(true, false, Some("a".to_string())), None);
    assert_eq!(referrer_name(false, false, Some("a".to_string())), Some("a".to_string()));
}

#[test]
fn attribute_layouts() {
    let s = |v: &str| Some(v.to_string());
    let static_slots = vec![s("type"), s("json"), None, s("mode"), s("x"), None];
    assert_eq!(
        import_attributes(&static_slots, ImportAttributeLayout::Static),
        vec![("type".to_string(), "json".to_string()), ("mode".to_string(), "x".to_string())]
    );
    let dynamic_slots = vec![s("type"), s("json"), s("k"), None, s("z"), s("w")];
    assert_eq!(
        import_attributes(&dynamic_slots, ImportAttributeLayout::Dynamic),
        vec![("type".to_string(), "json".to_string())]
    );
    assert_eq!(import_attributes(&vec![s("only")], ImportAttributeLayout::Dynamic), vec![]);
}

#[test]
fn dynamic_import_steps() {
    assert_eq!(dynamic_import_action(ModuleStatus::Uninstantiated, false), ImportAction::Instantiate);
    assert_eq!(dynamic_import_action(ModuleStatus::Errored, true), ImportAction::Reject);
    assert_eq!(dynamic_import_action(ModuleStatus::Evaluated, false), ImportAction::ResolveNamespace);
    assert_eq!(dynamic_import_action(ModuleStatus::Instantiated, true), ImportAction::Evaluate);
    assert_eq!(after_evaluation_action(ModuleStatus::Errored, true), EvaluatedAction::Reject);
    assert_eq!(after_evaluation_action(ModuleStatus::Evaluated, true), EvaluatedAction::ChainNamespace);
    assert_eq!(after_evaluation_action(ModuleStatus::Evaluated, false), EvaluatedAction::ResolveNamespace);
}
