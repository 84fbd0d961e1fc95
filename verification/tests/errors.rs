use v8_python::error::{
    format_js_exception, non_negative_i32, normalize_index, v8_usize_info, IndexOutOfRange,
    JavaScriptError, JavaScriptMessage, RawMessage, RawStackFrame, StackFrame, StackTrace,
};

fn message(resource: Option<&str>, line: Option<usize>, source: Option<&str>) -> JavaScriptMessage {
    JavaScriptMessage {
        text: "Uncaught Error: boom".to_string(),
        source_line: source.map(|s| s.to_string()),
        script_resource_name: resource.map(|s| s.to_string()),
        line_number: line,
        start_column: 4,
        end_column: 9,
        start_position: Some(10),
        end_position: Some(15),
        wasm_function_index: None,
        error_level: 8,
        is_shared_cross_origin: false,
        is_opaque: false,
    }
}

fn raw_message(resource: Option<&str>, line: Option<usize>, source: Option<&str>) -> RawMessage {
    RawMessage {
        text: "Uncaught Error: boom".to_string(),
        source_line: source.map(|s| s.to_string()),
        script_resource_name: resource.map(|s| s.to_string()),
        line_number: line,
        start_column: 4,
        end_column: 9,
        start_position: 10,
        end_position: 15,
        wasm_function_index: -1,
        error_level: 8,
        is_shared_cross_origin: false,
        is_opaque: false,
    }
}

fn raw_frame(function: &str, line: usize, column: usize) -> RawStackFrame {
    RawStackFrame {
        line,
        column,
        script_id: usize::MAX,
        script_name: Some("y.js".to_string()),
        script_name_or_source_url: None,
        script_source: None,
        script_source_mapping_url: None,
        function_name: Some(function.to_string()),
        is_eval: false,
        is_constructor: false,
        is_wasm: false,
        is_user_javascript: true,
    }
}

fn frame(function: Option<&str>, script: Option<&str>, url: Option<&str>, line: Option<usize>, column: Option<usize>) -> StackFrame {
    StackFrame {
        line,
        column,
        script_id: Some(3),
        script_name: script.map(|s| s.to_string()),
        script_name_or_source_url: url.map(|s| s.to_string()),
        script_source: None,
        script_source_mapping_url: None,
        function_name: function.map(|s| s.to_string()),
        is_eval: false,
        is_constructor: false,
        is_wasm: false,
        is_user_javascript: true,
    }
}

#[test]
fn sentinels_are_unknown() {
    assert_eq!(non_negative_i32(-1), None);
    assert_eq!(non_negative_i32(0), Some(0));
    assert_eq!(v8_usize_info(usize::MAX), None);
    assert_eq!(v8_usize_info(7), Some(7));
}

#[test]
fn python_style_indices() {
    assert_eq!(normalize_index(0, 3), Ok(0));
    assert_eq!(normalize_index(2, 3), Ok(2));
    assert_eq!(normalize_index(-1, 3), Ok(2));
    assert_eq!(normalize_index(-3, 3), Ok(0));
    assert_eq!(normalize_index(3, 3), Err(IndexOutOfRange));
    assert_eq!(normalize_index(-4, 3), Err(IndexOutOfRange));
    assert_eq!(normalize_index(0, 0), Err(IndexOutOfRange));
    assert_eq!(normalize_index(isize::MIN, 5), Err(IndexOutOfRange));
}

#[test]
fn exception_display_with_location_source_and_stack() {
    let m = message(Some("app.js"), Some(3), Some("throw new Error('boom');"));
    let text = format_js_exception("Error: boom", Some(&m), Some("Error: boom\n    at app.js:3:7"));
    assert_eq!(
        text,
        "app.js:3: Error: boom\nthrow new Error('boom');\nError: boom\n    at app.js:3:7"
    );
}

#[test]
fn exception_display_skips_repeated_stack() {
    let m = message(None, Some(5), None);
    let text = format_js_exception("Error: x", Some(&m), Some("<unknown>:5: Error: x"));
    assert_eq!(text, "<unknown>:5: Error: x");
    assert_eq!(format_js_exception("Error: y", None, None), "Error: y");
    let n = message(Some("mod.js"), None, None);
    assert_eq!(format_js_exception("E", Some(&n), None), "mod.js: E");
}

#[test]
fn message_location_and_repr() {
    let m = message(Some("a.js"), Some(12), None);
    assert_eq!(m.location(), Some("a.js:12".to_string()));
    assert_eq!(m.__str__(), "Uncaught Error: boom");
    assert_eq!(m.__repr__(), "Message(\"Uncaught Error: boom\")");
    assert_eq!(message(None, None, None).location(), None);
}

#[test]
fn message_from_raw_reads_sentinels() {
    let raw = RawMessage {
        text: "t".to_string(),
        source_line: None,
        script_resource_name: None,
        line_number: None,
        start_column: 1,
        end_column: 2,
        start_position: -1,
        end_position: 5,
        wasm_function_index: -1,
        error_level: 1,
        is_shared_cross_origin: true,
        is_opaque: false,
    };
    let m = JavaScriptMessage::from_raw(raw);
    assert_eq!(m.start_position(), None);
    assert_eq!(m.end_position(), Some(5));
    assert_eq!(m.wasm_function_index(), None);
    assert!(m.is_shared_cross_origin());
}

#[test]
fn frame_repr_forms() {
    let f = frame(Some("run"), Some("s.js"), Some("http://x/s.js"), Some(3), Some(9));
    assert_eq!(f.__repr__(), "StackFrame(function=\"run\", location=http://x/s.js:3:9)");
    let g = frame(None, Some("s.js"), None, Some(3), None);
    assert_eq!(g.__repr__(), "StackFrame(function=\"<anonymous>\", location=s.js:3)");
    let h = frame(None, None, None, None, Some(4));
    assert_eq!(h.__repr__(), "StackFrame(function=\"<anonymous>\", location=<unknown>)");
}

#[test]
fn frame_from_raw() {
    let raw = RawStackFrame {
        line: usize::MAX,
        column: 2,
        script_id: usize::MAX,
        script_name: Some("n".to_string()),
        script_name_or_source_url: None,
        script_source: None,
        script_source_mapping_url: None,
        function_name: None,
        is_eval: true,
        is_constructor: false,
        is_wasm: false,
        is_user_javascript: true,
    };
    let f = StackFrame::from_raw(raw);
    assert_eq!(f.line(), None);
    assert_eq!(f.line_number(), None);
    assert_eq!(f.column(), Some(2));
    assert_eq!(f.script_id(), None);
    assert!(f.is_eval());
}

#[test]
fn stack_trace_indexing() {
    let t = StackTrace {
        text: Some("trace".to_string()),
        frames: vec![frame(Some("a"), None, None, None, None), frame(Some("b"), None, None, None, None)],
    };
    assert_eq!(t.__len__(), 2);
    assert_eq!(t.__getitem__(-1).unwrap().function_name(), Some("b".to_string()));
    assert_eq!(t.__getitem__(2).err(), Some(IndexOutOfRange));
    assert_eq!(t.__getitem__(-2).unwrap().function_name(), Some("a".to_string()));
    assert_eq!(t.__getitem__(-3).err(), Some(IndexOutOfRange));
    assert_eq!(t.__str__(), "trace");
    assert_eq!(t.__repr__(), "StackTrace(frame_count=2)");
    let empty = StackTrace { text: None, frames: vec![] };
    assert_eq!(empty.__str__(), "");
}

#[test]
fn error_new_and_caught() {
    let e = JavaScriptError::new("Script timed out".to_string());
    assert_eq!(e.__str__(), "Script timed out");
    assert_eq!(e.message(), "Script timed out");
    assert_eq!(e.line_number(), None);
    assert!(e.frames().is_empty());

    let m = raw_message(Some("x.js"), Some(1), None);
    let c = JavaScriptError::from_caught(None, "Failed to compile.", Some(m), None, None);
    assert_eq!(c.start_position(), Some(10));
    assert_eq!(c.wasm_function_index(), None);
    assert_eq!(c.message(), "Failed to compile.");
    assert_eq!(c.__str__(), "x.js:1: Failed to compile.");
    assert_eq!(c.start_column(), 4);
    assert_eq!(c.error_level(), 8);
    assert_eq!(c.script_resource_name(), Some("x.js".to_string()));
}

#[test]
fn caught_error_details_and_trace_follow_message_and_stack() {
    let m = raw_message(Some("y.js"), Some(2), Some("boom()"));
    let frames = vec![raw_frame("boom", 2, 1)];
    let stack = "Error: boom\n    at boom (y.js:2:1)".to_string();
    let c = JavaScriptError::from_caught(
        Some("Error: boom".to_string()),
        "unused",
        Some(m),
        Some(stack.clone()),
        Some(frames),
    );
    assert_eq!(c.message(), "Error: boom");
    assert_eq!(c.details(), Some("Uncaught Error: boom".to_string()));
    assert_eq!(c.stack(), Some(stack.clone()));
    let t = c.stack_trace().unwrap();
    assert_eq!(t.text, Some(stack.clone()));
    assert_eq!(t.frames.len(), 1);
    assert_eq!(c.frames()[0].function_name(), Some("boom".to_string()));
    assert_eq!(c.frames()[0].script_id(), None);
    assert_eq!(c.frames()[0].line(), Some(2));
    assert_eq!(c.__str__(), format!("y.js:2: Error: boom\nboom()\n{stack}"));
    assert_eq!(c.source_line(), Some("boom()".to_string()));
    let d = c.duplicate();
    assert_eq!(d.__str__(), c.__str__());

    let plain = JavaScriptError::from_caught(None, "Task callback failed.", None, None, None);
    assert_eq!(plain.__str__(), "Task callback failed.");
    assert_eq!(plain.details(), None);
    assert!(plain.stack_trace().is_none());
    assert_eq!(plain.start_column(), 0);
}
