use v8_python::host_api::{
    AtomicsAPI, AtomicsDefinition, DynamicCodePolicyAPI, DynamicCodePolicyDefinition, EmptyInspectorName,
    HostAPIDefinition, HostAPIKind, InspectorAPI, InspectorDefinition,
};
use v8_python::inspector::{inspector_repr, session_repr, trust_level, InspectorMessageQueue, TrustLevel};
use v8_python::profile::{host_function_name, last_path_segment, path_segments, BaseProfile, DefinitionError, EmptyPathSegment, HostFunctionDefinition};
use v8_python::rejection::{event_name, reason_to_string, rejection_actions, RejectEvent, RejectionPolicy, UnknownRejectionPolicy};
use v8_python::settings::{
    parse_function_code_handling, parse_garbage_collection_type, parse_memory_pressure_level,
    parse_microtasks_policy, FunctionCodeHandling, GarbageCollectionType, MemoryPressureLevel,
    MicrotasksPolicy, UnknownSetting,
};

#[test]
fn simple_api_settings() {
    let a = AtomicsAPI::new(true);
    assert!(a.allow_wait());
    assert_eq!(a.definition(), AtomicsDefinition { allow_wait: true });
    assert_eq!(a.definition().clone_ref(), AtomicsDefinition { allow_wait: true });
    let d = DynamicCodePolicyAPI::new(false);
    assert!(!d.allow_eval());
    assert_eq!(d.definition().clone_ref(), DynamicCodePolicyDefinition { allow_eval: false });
}

#[test]
fn inspector_api_settings() {
    assert!(matches!(InspectorAPI::new("  \t", 1, None), Err(EmptyInspectorName)));
    assert!(matches!(InspectorAPI::new("", 1, None), Err(EmptyInspectorName)));
    let api = InspectorAPI::new("v8-python", 1, None).unwrap();
    assert_eq!(api.name(), "v8-python");
    assert_eq!(api.context_group_id(), 1);
    assert_eq!(api.aux_data(), None);
    let def = api.definition();
    assert_eq!(def.aux_data_or_default(), "{\"isDefault\":true}");
    let other = InspectorDefinition { name: "n".to_string(), context_group_id: 2, aux_data: Some("{}".to_string()) };
    assert_eq!(other.clone_ref().aux_data_or_default(), "{}");
}

#[test]
fn host_api_kinds() {
    let t: HostAPIDefinition<u8> = HostAPIDefinition::Timer;
    let c: HostAPIDefinition<u8> = HostAPIDefinition::Console { logger: 1 };
    let c2: HostAPIDefinition<u8> = HostAPIDefinition::Console { logger: 2 };
    assert!(c.same_kind(&c2));
    assert!(!c.same_kind(&t));
    assert_eq!(c.clone_ref().kind(), HostAPIKind::Console);
    assert!(HostAPIKind::Atomics.configures_isolate());
    assert!(!HostAPIKind::Atomics.installs_into_context());
    assert!(HostAPIKind::WebAssembly.configures_isolate() && HostAPIKind::WebAssembly.installs_into_context());
    assert!(!HostAPIKind::Timer.configures_isolate());
}

#[test]
fn profile_keeps_first_api_of_each_kind() {
    let mut p: BaseProfile<u8, u8, u8> = BaseProfile::new();
    p.add_host_api(HostAPIDefinition::Timer);
    p.add_host_api(HostAPIDefinition::Atomics(AtomicsDefinition { allow_wait: false }));
    p.add_host_api(HostAPIDefinition::Atomics(AtomicsDefinition { allow_wait: true }));
    p.add_host_api(HostAPIDefinition::Timer);
    assert_eq!(p.host_api_count(), 2);
    assert!(matches!(p.host_apis()[1], HostAPIDefinition::Atomics(AtomicsDefinition { allow_wait: false })));
    p.add_host_function(1);
    p.add_host_class(2);
    p.add_host_class(3);
    assert_eq!((p.host_function_count(), p.class_count()), (1, 2));
}

#[test]
fn host_function_names_and_paths() {
    assert_eq!(host_function_name(false, Some("f".to_string())), Err(DefinitionError::NotCallable));
    assert_eq!(host_function_name(true, Some(" ".to_string())), Err(DefinitionError::EmptyName));
    assert_eq!(host_function_name(true, Some("add".to_string())), Ok(Some("add".to_string())));
    assert_eq!(host_function_name(true, None), Ok(None));
    assert_eq!(path_segments("a.b.c"), Ok(vec!["a".to_string(), "b".to_string(), "c".to_string()]));
    assert_eq!(path_segments("a..c"), Err(EmptyPathSegment));
    assert_eq!(path_segments(""), Err(EmptyPathSegment));
    assert_eq!(path_segments("a."), Err(EmptyPathSegment));
    assert_eq!(last_path_segment("console.log"), Ok("log".to_string()));
    let d = HostFunctionDefinition::new("x.y".to_string(), 4u8);
    assert_eq!(d.clone_ref().name, "x.y");
}

#[test]
fn inspector_queue_and_texts() {
    let mut q = InspectorMessageQueue::new();
    assert!(!q.__bool__());
    q.push("{\"id\":1}".to_string());
    q.push("{\"id\":2}".to_string());
    assert_eq!(q.__len__(), 2);
    assert_eq!(q.messages(), vec!["{\"id\":1}".to_string(), "{\"id\":2}".to_string()]);
    assert_eq!(session_repr(3, &q), "v8.InspectorSession(context_group_id=3, queued_messages=2)");
    assert_eq!(q.take_messages().len(), 2);
    assert_eq!(q.__len__(), 0);
    q.push("x".to_string());
    q.clear_messages();
    assert!(!q.__bool__());
    assert_eq!(inspector_repr("v8-python", -1), "v8.Inspector(name=\"v8-python\", context_group_id=-1)");
    assert_eq!(trust_level(true), TrustLevel::FullyTrusted);
    assert_eq!(trust_level(false), TrustLevel::Untrusted);
}

#[test]
fn rejection_tracking() {
    assert_eq!(RejectionPolicy::parse("warn"), Ok(RejectionPolicy::Warn));
    assert_eq!(RejectionPolicy::parse("ignore"), Ok(RejectionPolicy::Ignore));
    assert_eq!(RejectionPolicy::parse("error"), Err(UnknownRejectionPolicy));
    assert_eq!(event_name(RejectEvent::HandlerAddedAfterReject), "handler_added_after_reject");
    let a = rejection_actions(RejectionPolicy::Warn, true, RejectEvent::RejectWithNoHandler, Some("Error: x"));
    assert!(a.call_callback);
    assert_eq!(a.warning, Some("Unhandled JavaScript Promise rejection: Error: x".to_string()));
    let b = rejection_actions(RejectionPolicy::Warn, false, RejectEvent::RejectWithNoHandler, None);
    assert_eq!(b.warning, Some("Unhandled JavaScript Promise rejection.".to_string()));
    let c = rejection_actions(RejectionPolicy::Ignore, false, RejectEvent::RejectWithNoHandler, None);
    assert!(c.warning.is_none() && !c.call_callback);
    let d = rejection_actions(RejectionPolicy::Warn, false, RejectEvent::ResolveAfterResolved, None);
    assert!(d.warning.is_none());
    assert_eq!(reason_to_string(true, false, None), "undefined");
    assert_eq!(reason_to_string(false, true, Some("x".to_string())), "null");
    assert_eq!(reason_to_string(false, false, None), "<exception>");
}

#[test]
fn engine_settings() {
    assert_eq!(parse_microtasks_policy("auto"), Ok(MicrotasksPolicy::Auto));
    assert_eq!(parse_microtasks_policy("explicit"), Ok(MicrotasksPolicy::Explicit));
    assert_eq!(parse_microtasks_policy("scoped"), Err(UnknownSetting::MicrotasksPolicy));
    assert_eq!(parse_memory_pressure_level("none"), Ok(MemoryPressureLevel::NoPressure));
    assert_eq!(parse_memory_pressure_level("critical"), Ok(MemoryPressureLevel::Critical));
    assert_eq!(parse_memory_pressure_level("high"), Err(UnknownSetting::MemoryPressureLevel));
    assert_eq!(parse_garbage_collection_type("minor"), Ok(GarbageCollectionType::Minor));
    assert_eq!(parse_garbage_collection_type("major"), Err(UnknownSetting::GarbageCollectionType));
    assert_eq!(parse_function_code_handling("keep"), Ok(FunctionCodeHandling::Keep));
    assert_eq!(parse_function_code_handling("drop"), Err(UnknownSetting::FunctionCodeHandling));
}

#[test]
fn host_api_defaults() {
    assert!(AtomicsAPI::default().allow_wait());
    assert!(!DynamicCodePolicyAPI::default().allow_eval());
    let i = InspectorAPI::with_defaults();
    assert_eq!(i.name(), "v8-python");
    assert_eq!(i.context_group_id(), 1);
    assert_eq!(i.aux_data(), None);
    assert_eq!(EmptyInspectorName.message(), "Inspector context name cannot be empty.");
    assert!(InspectorAPI::new(" \t", 1, None).is_err());
}
