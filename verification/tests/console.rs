use v8_python::console::{
    append_suffix, assert_message, joined_arguments, label_argument, logging_function_of,
    validate_logger, value_to_console_string, ConsoleState, LogLevel,
};

fn args(v: &[&str]) -> Vec<String> {
    v.iter().map(|s| s.to_string()).collect()
}

#[test]
fn logging_functions() {
    assert_eq!(logging_function_of("log"), Some((LogLevel::Info, "")));
    assert_eq!(logging_function_of("table"), Some((LogLevel::Info, "")));
    assert_eq!(logging_function_of("warning"), Some((LogLevel::Warning, "")));
    assert_eq!(logging_function_of("trace"), Some((LogLevel::Error, "Trace: ")));
    assert_eq!(logging_function_of("count"), None);
    assert_eq!(LogLevel::Warning.method(), "warning");
}

#[test]
fn argument_texts() {
    assert_eq!(value_to_console_string(true, false, false, false, None), "undefined");
    assert_eq!(value_to_console_string(false, true, false, false, None), "null");
    assert_eq!(value_to_console_string(false, false, true, false, None), "");
    assert_eq!(value_to_console_string(false, false, false, true, Some("12".to_string())), "12n");
    assert_eq!(value_to_console_string(false, false, false, true, None), "<bigint>");
    assert_eq!(value_to_console_string(false, false, false, false, None), "<value>");
    assert_eq!(value_to_console_string(false, false, false, false, Some("[object Object]".to_string())), "[object Object]");
    assert_eq!(label_argument(&args(&[])), "default");
    assert_eq!(label_argument(&args(&["x", "y"])), "x");
    assert_eq!(joined_arguments(&args(&["a", "b", "c"]), 0), "a b c");
    assert_eq!(joined_arguments(&args(&["a", "b", "c"]), 1), "b c");
    assert_eq!(joined_arguments(&args(&["a"]), 1), "");
}

#[test]
fn console_assert() {
    assert!(assert_message(true, &args(&["true"])).is_none());
    let r = assert_message(false, &args(&["false"])).unwrap();
    assert_eq!((r.level, r.message.as_str()), (LogLevel::Error, "Assertion failed"));
    let s = assert_message(false, &args(&["0", "bad", "state"])).unwrap();
    assert_eq!(s.message, "Assertion failed: bad state");
    let t = assert_message(true, &args(&[])).unwrap();
    assert_eq!(t.message, "Assertion failed");
}

#[test]
fn counters() {
    let mut c: ConsoleState<u64> = ConsoleState::new();
    assert_eq!(c.count("default".to_string()).message, "default: 1");
    assert_eq!(c.count("default".to_string()).message, "default: 2");
    assert!(c.count_reset("default").is_none());
    let w = c.count_reset("default").unwrap();
    assert_eq!((w.level, w.message.as_str()), (LogLevel::Warning, "Count for 'default' does not exist."));
    assert_eq!(c.count("default".to_string()).message, "default: 1");
    assert_eq!(c.counter("default"), Some(1));
    assert_eq!(c.counter("other"), None);
}

#[test]
fn timers() {
    let mut c: ConsoleState<u64> = ConsoleState::new();
    c.time("t".to_string(), 100);
    assert_eq!(c.time_log("t", false).ok(), Some(100));
    assert_eq!(c.time_log("t", true).ok(), Some(100));
    let w = c.time_log("t", false).err().unwrap();
    assert_eq!(w.message, "Timer 't' does not exist.");
    let mut m = "t: 1.000ms".to_string();
    append_suffix(&mut m, Some("done".to_string()));
    assert_eq!(m, "t: 1.000ms done");
    append_suffix(&mut m, Some(String::new()));
    append_suffix(&mut m, None);
    assert_eq!(m, "t: 1.000ms done");
}

#[test]
fn groups_indent() {
    let mut c: ConsoleState<u64> = ConsoleState::new();
    assert!(c.group(String::new()).is_none());
    let r = c.group("inner".to_string()).unwrap();
    assert_eq!(r.message, "  inner");
    assert_eq!(c.log(LogLevel::Info, "x".to_string()).message, "    x");
    c.group_end();
    c.group_end();
    c.group_end();
    assert_eq!(c.log(LogLevel::Debug, "y".to_string()).message, "y");
    assert_eq!(c.group_depth(), 0);
    c.group("g".to_string());
    assert_eq!(c.group_depth(), 1);
    assert_eq!(c.count("n".to_string()).message, "  n: 1");
}

#[test]
fn logger_validation() {
    assert!(validate_logger(&vec![true, true, true, true]).is_ok());
    assert_eq!(
        validate_logger(&vec![true, false, false, true]).err().unwrap(),
        "Console logger must provide callable 'info'."
    );
}
