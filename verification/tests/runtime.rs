use std::collections::HashMap;
use v8_python::runtime::{
    collect_ready_isolates, dropped_isolate_count, effective_timeout, engine_flags, external_id,
    external_payload, get_host_function, is_gc_stop_phase, is_installed_gc_callback, next_script_id,
    register_external, register_host_function, released_since, request_shadow_realm,
    try_collect_ready_isolates, unregister_host_functions, unregister_untracked_externals_for_isolate,
    IsolateRegistry, IsolateResources, RegisteredExternal, ScriptIdCounter, ShadowRealmTooLate,
};

#[test]
fn isolates_are_released_newest_first() {
    let mut r: IsolateRegistry<&str> = IsolateRegistry::new();
    assert!(r.can_register(1));
    r.register_isolate(1);
    r.register_isolate(2);
    assert!(!r.can_register(2));
    assert!(r.can_register(5));
    r.register_isolate(5);
    let (a, b, c) = (1, 2, 5);
    assert!(r.awaits_retirement(a));
    assert!(!r.awaits_retirement(4));
    assert!(!r.awaits_retirement(3));
    r.retire_isolate(a, "a");
    assert!(!r.awaits_retirement(a));
    assert!(r.drop_ready_isolates().is_empty());
    r.retire_isolate(c, "c");
    assert_eq!(r.drop_ready_isolates(), vec!["c"]);
    r.retire_isolate(b, "b");
    assert_eq!(collect_ready_isolates(&mut r), vec!["b", "a"]);
    assert_eq!(dropped_isolate_count(&r), 3);
    assert!(r.drop_ready_isolates().is_empty());
}

#[test]
fn collecting_without_registry() {
    let none: Option<&mut IsolateRegistry<u8>> = None;
    assert!(try_collect_ready_isolates(none).is_none());
    let mut r: IsolateRegistry<u8> = IsolateRegistry::new();
    r.register_isolate(7);
    r.retire_isolate(7, 9);
    assert_eq!(try_collect_ready_isolates(Some(&mut r)), Some(vec![9]));
    assert_eq!(dropped_isolate_count(&r), 1);
    assert_eq!(try_collect_ready_isolates(Some(&mut r)), Some(vec![]));
    assert_eq!(dropped_isolate_count(&r), 1);
}

#[test]
fn script_ids_wrap() {
    let mut c = ScriptIdCounter::new();
    assert_eq!(next_script_id(&mut c), 1);
    assert_eq!(next_script_id(&mut c), 2);
}

#[test]
fn host_functions_registry() {
    let mut reg: HashMap<u64, &str> = HashMap::new();
    let mut next = 1u64;
    let a = register_host_function(&mut reg, &mut next, "f");
    let b = register_host_function(&mut reg, &mut next, "g");
    assert_eq!((a, b, next), (1, 2, 3));
    assert_eq!(get_host_function(&reg, 2), Some(&"g"));
    unregister_host_functions(&mut reg, &vec![1, 7]);
    assert_eq!(get_host_function(&reg, 1), None);
    assert_eq!(reg.len(), 1);
}

#[test]
fn externals_registry() {
    let mut reg: HashMap<usize, RegisteredExternal<&str>> = HashMap::new();
    let mut next = 1u64;
    register_external(&mut reg, &mut next, 100, "p", 1);
    register_external(&mut reg, &mut next, 200, "q", 2);
    register_external(&mut reg, &mut next, 300, "r", 1);
    assert_eq!(external_id(&reg, 200), Some(2));
    assert_eq!(external_payload(&reg, 300), Some(&"r"));
    assert_eq!(external_id(&reg, 5), None);
    let mut tokens = unregister_untracked_externals_for_isolate(&mut reg, 1);
    tokens.sort();
    assert_eq!(tokens, vec![100, 300]);
    assert_eq!(reg.len(), 1);
}

#[test]
fn isolate_resources_release() {
    let mut functions: HashMap<u64, u8> = HashMap::new();
    functions.insert(1, 0);
    functions.insert(2, 0);
    let mut externals: HashMap<usize, RegisteredExternal<u8>> = HashMap::new();
    externals.insert(10, RegisteredExternal { id: 1, payload: 0, isolate_id: 5 });
    externals.insert(11, RegisteredExternal { id: 2, payload: 0, isolate_id: 5 });
    externals.insert(12, RegisteredExternal { id: 3, payload: 0, isolate_id: 6 });
    let mut res = IsolateResources::new(5);
    res.track_host_function(1);
    res.track_external(10);
    let untracked = res.release(&mut functions, &mut externals);
    assert_eq!(untracked, vec![11]);
    assert!(!functions.contains_key(&1));
    assert!(functions.contains_key(&2));
    assert_eq!(externals.len(), 1);
    assert!(externals.contains_key(&12));
}

#[test]
fn timeouts_and_flags() {
    assert_eq!(effective_timeout(None), None);
    assert_eq!(effective_timeout(Some(0)), None);
    assert_eq!(effective_timeout(Some(25)), Some(25));
    assert_eq!(engine_flags(false), "--expose_gc");
    assert_eq!(engine_flags(true), "--expose_gc --harmony-shadow-realm");
}

#[test]
fn shadow_realm_after_initialisation() {
    let mut requested = false;
    assert_eq!(request_shadow_realm(true, &mut requested), Err(ShadowRealmTooLate));
    assert!(!requested);
    assert_eq!(request_shadow_realm(false, &mut requested), Ok(()));
    assert!(requested);
    assert_eq!(request_shadow_realm(true, &mut requested), Ok(()));
}

#[test]
fn garbage_collection_hooks() {
    assert!(is_gc_stop_phase("stop"));
    assert!(!is_gc_stop_phase("start"));
    assert_eq!(released_since(3, 5), 2);
    assert_eq!(released_since(5, 3), 0);
    assert!(is_installed_gc_callback("v8", "_gc_callback", Some("v8"), Some("_gc_callback")));
    assert!(!is_installed_gc_callback("v8", "_gc_callback", None, Some("_gc_callback")));
    assert!(!is_installed_gc_callback("v8", "_gc_callback", Some("w"), Some("_gc_callback")));
}
