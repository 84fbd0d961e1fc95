//! The console host API: how console calls become log records, and the
//! counters, timers and group depth it keeps between calls.
use vstd::prelude::*;
use vstd::hash_map::StringHashMap;
use crate::text::{append_decimal, append_str, decimal, join_seqs, join_strings, str_eq, string_views};

verus! {

broadcast use vstd::hash_map::group_hash_map_axioms;

/// The label used when a console call gives none.
pub open spec fn default_label() -> Seq<char> {
    "default"@
}

/// The logger methods a console call may use.
#[derive(Clone, Copy, Debug, PartialEq, Eq, Structural)]
pub enum LogLevel {
    Debug,
    Info,
    Warning,
    Error,
}

/// The name of the logger method for a level.
pub open spec fn level_method(l: LogLevel) -> Seq<char> {
    match l {
        LogLevel::Debug => "debug"@,
        LogLevel::Info => "info"@,
        LogLevel::Warning => "warning"@,
        LogLevel::Error => "error"@,
    }
}

impl LogLevel {
    /// The name of the logger method.
    pub fn method(self) -> (r: &'static str)
        ensures
            r@ == level_method(self),
    {
        match self {
            LogLevel::Debug => "debug",
            LogLevel::Info => "info",
            LogLevel::Warning => "warning",
            LogLevel::Error => "error",
        }
    }
}

/// One record for the logger: the method to call and the message.
pub struct LogRecord {
    pub level: LogLevel,
    pub message: String,
}

/// The console functions that only log their arguments, with the level and
/// the prefix they use: `log`, `info`, `dir` and `table` log at info,
/// `debug` at debug, `warn` and `warning` at warning, `error` at error, and
/// `trace` at error with the prefix "Trace: ".
pub open spec fn logging_function(name: Seq<char>) -> Option<(LogLevel, Seq<char>)> {
    if name == "log"@ || name == "info"@ || name == "dir"@ || name == "table"@ {
        Some((LogLevel::Info, Seq::empty()))
    } else if name == "debug"@ {
        Some((LogLevel::Debug, Seq::empty()))
    } else if name == "warn"@ || name == "warning"@ {
        Some((LogLevel::Warning, Seq::empty()))
    } else if name == "error"@ {
        Some((LogLevel::Error, Seq::empty()))
    } else if name == "trace"@ {
        Some((LogLevel::Error, "Trace: "@))
    } else {
        None
    }
}

/// Each console function that only logs goes to the logger method of its
/// own name: `debug`, `info`, `warning` and `error` to the method so named,
/// `warn` to `warning`, `log`, `dir` and `table` to `info`, and `trace` to
/// `error` with the prefix "Trace: "; only `trace` adds a prefix.
pub proof fn logging_functions_use_their_own_level(name: Seq<char>)
    ensures
        (name == "debug"@ || name == "info"@ || name == "warning"@ || name == "error"@) ==> (logging_function(
            name,
        ) matches Some((l, p)) && level_method(l) == name && p.len() == 0),
        name == "warn"@ ==> (logging_function(name) matches Some((l, p)) && level_method(l) == "warning"@
            && p.len() == 0),
        (name == "log"@ || name == "dir"@ || name == "table"@) ==> (logging_function(name) matches Some(
            (l, p),
        ) && level_method(l) == "info"@ && p.len() == 0),
        name == "trace"@ ==> (logging_function(name) matches Some((l, p)) && level_method(l) == "error"@
            && p == "Trace: "@),
{
    reveal_strlit("log");
    reveal_strlit("info");
    reveal_strlit("dir");
    reveal_strlit("table");
    reveal_strlit("debug");
    reveal_strlit("warn");
    reveal_strlit("warning");
    reveal_strlit("error");
    reveal_strlit("trace");
    reveal_strlit("Trace: ");
    if name == "log"@ {
        assert("log"@.len() != "info"@.len());
        assert("log"@[0] != "dir"@[0]);
        assert("log"@.len() != "table"@.len());
        assert("log"@.len() != "debug"@.len());
        assert("log"@.len() != "warn"@.len());
        assert("log"@.len() != "warning"@.len());
        assert("log"@.len() != "error"@.len());
        assert("log"@.len() != "trace"@.len());
    }
    if name == "info"@ {
        assert("info"@.len() != "log"@.len());
        assert("info"@.len() != "dir"@.len());
        assert("info"@.len() != "table"@.len());
        assert("info"@.len() != "debug"@.len());
        assert("info"@[0] != "warn"@[0]);
        assert("info"@.len() != "warning"@.len());
        assert("info"@.len() != "error"@.len());
        assert("info"@.len() != "trace"@.len());
    }
    if name == "dir"@ {
        assert("dir"@[0] != "log"@[0]);
        assert("dir"@.len() != "info"@.len());
        assert("dir"@.len() != "table"@.len());
        assert("dir"@.len() != "debug"@.len());
        assert("dir"@.len() != "warn"@.len());
        assert("dir"@.len() != "warning"@.len());
        assert("dir"@.len() != "error"@.len());
        assert("dir"@.len() != "trace"@.len());
    }
    if name == "table"@ {
        assert("table"@.len() != "log"@.len());
        assert("table"@.len() != "info"@.len());
        assert("table"@.len() != "dir"@.len());
        assert("table"@[0] != "debug"@[0]);
        assert("table"@.len() != "warn"@.len());
        assert("table"@.len() != "warning"@.len());
        assert("table"@[0] != "error"@[0]);
        assert("table"@[1] != "trace"@[1]);
    }
    if name == "debug"@ {
        assert("debug"@.len() != "log"@.len());
        assert("debug"@.len() != "info"@.len());
        assert("debug"@.len() != "dir"@.len());
        assert("debug"@[0] != "table"@[0]);
        assert("debug"@.len() != "warn"@.len());
        assert("debug"@.len() != "warning"@.len());
        assert("debug"@[0] != "error"@[0]);
        assert("debug"@[0] != "trace"@[0]);
    }
    if name == "warn"@ {
        assert("warn"@.len() != "log"@.len());
        assert("warn"@[0] != "info"@[0]);
        assert("warn"@.len() != "dir"@.len());
        assert("warn"@.len() != "table"@.len());
        assert("warn"@.len() != "debug"@.len());
        assert("warn"@.len() != "warning"@.len());
        assert("warn"@.len() != "error"@.len());
        assert("warn"@.len() != "trace"@.len());
    }
    if name == "warning"@ {
        assert("warning"@.len() != "log"@.len());
        assert("warning"@.len() != "info"@.len());
        assert("warning"@.len() != "dir"@.len());
        assert("warning"@.len() != "table"@.len());
        assert("warning"@.len() != "debug"@.len());
        assert("warning"@.len() != "warn"@.len());
        assert("warning"@.len() != "error"@.len());
        assert("warning"@.len() != "trace"@.len());
    }
    if name == "error"@ {
        assert("error"@.len() != "log"@.len());
        assert("error"@.len() != "info"@.len());
        assert("error"@.len() != "dir"@.len());
        assert("error"@[0] != "table"@[0]);
        assert("error"@[0] != "debug"@[0]);
        assert("error"@.len() != "warn"@.len());
        assert("error"@.len() != "warning"@.len());
        assert("error"@[0] != "trace"@[0]);
    }
    if name == "trace"@ {
        assert("trace"@.len() != "log"@.len());
        assert("trace"@.len() != "info"@.len());
        assert("trace"@.len() != "dir"@.len());
        assert("trace"@[1] != "table"@[1]);
        assert("trace"@[0] != "debug"@[0]);
        assert("trace"@.len() != "warn"@.len());
        assert("trace"@.len() != "warning"@.len());
        assert("trace"@[0] != "error"@[0]);
    }
}

/// The level and prefix of a console function that only logs.
pub fn logging_function_of(name: &str) -> (r: Option<(LogLevel, &'static str)>)
    ensures
        match logging_function(name@) {
            Some((l, p)) => r matches Some((l2, p2)) && l2 == l && p2@ == p,
            None => r is None,
        },
{
    proof {
        reveal_strlit("");
    }
    if str_eq(name, "log") || str_eq(name, "info") || str_eq(name, "dir") || str_eq(name, "table") {
        Some((LogLevel::Info, ""))
    } else if str_eq(name, "debug") {
        Some((LogLevel::Debug, ""))
    } else if str_eq(name, "warn") || str_eq(name, "warning") {
        Some((LogLevel::Warning, ""))
    } else if str_eq(name, "error") {
        Some((LogLevel::Error, ""))
    } else if str_eq(name, "trace") {
        Some((LogLevel::Error, "Trace: "))
    } else {
        None
    }
}

/// The text shown for an argument of a console call.
pub open spec fn console_text(
    is_undefined: bool,
    is_null: bool,
    is_string: bool,
    is_big_int: bool,
    converted: Option<Seq<char>>,
) -> Seq<char> {
    if is_undefined {
        "undefined"@
    } else if is_null {
        "null"@
    } else if is_string {
        match converted {
            Some(s) => s,
            None => Seq::empty(),
        }
    } else if is_big_int {
        match converted {
            Some(s) => s + "n"@,
            None => "<bigint>"@,
        }
    } else {
        match converted {
            Some(s) => s,
            None => "<value>"@,
        }
    }
}

/// The text shown for an argument of a console call: "undefined" and
/// "null" for those values; else the value's string conversion (`converted`,
/// `None` when it threw), with "n" after a BigInt; when the conversion threw,
/// the empty string for a string, "<bigint>" for a BigInt and "<value>" for
/// anything else.
pub fn value_to_console_string(
    is_undefined: bool,
    is_null: bool,
    is_string: bool,
    is_big_int: bool,
    converted: Option<String>,
) -> (r: String)
    ensures
        r@ == console_text(
            is_undefined,
            is_null,
            is_string,
            is_big_int,
            match converted {
                Some(s) => Some(s@),
                None => None,
            },
        ),
{
    if is_undefined {
        return String::from_str("undefined");
    }
    if is_null {
        return String::from_str("null");
    }
    if is_string {
        return match converted {
            Some(s) => s,
            None => String::new(),
        };
    }
    if is_big_int {
        return match converted {
            Some(mut s) => {
                append_str(&mut s, "n");
                s
            },
            None => String::from_str("<bigint>"),
        };
    }
    match converted {
        Some(s) => s,
        None => String::from_str("<value>"),
    }
}

/// The label of a counter or timer call: the first argument's text, or
/// "default" when there are no arguments.
pub fn label_argument(args: &Vec<String>) -> (r: String)
    ensures
        r@ == (if args@.len() == 0 {
            default_label()
        } else {
            args@[0]@
        }),
{
    if args.len() == 0 {
        return String::from_str("default");
    }
    args[0].clone()
}

/// The texts of the arguments from `start` on, joined with spaces.
pub open spec fn joined_text(args: Seq<String>, start: int) -> Seq<char> {
    join_seqs(string_views(args.skip(start)), " "@)
}

/// The texts of the arguments from `start` on, joined with spaces.
pub fn joined_arguments(args: &Vec<String>, start: usize) -> (r: String)
    requires
        start <= args@.len(),
    ensures
        r@ == joined_text(args@, start as int),
{
    let mut rest: Vec<String> = Vec::new();
    let mut i = start;
    while i < args.len()
        invariant
            start <= i <= args@.len(),
            rest@ == args@.subrange(start as int, i as int),
        decreases args@.len() - i,
    {
        rest.push(args[i].clone());
        assert(rest@ =~= args@.subrange(start as int, i + 1));
        i = i + 1;
    }
    assert(rest@ =~= args@.skip(start as int));
    join_strings(&rest, " ")
}

/// The message of a failed `console.assert`.
pub open spec fn assertion_text(args: Seq<String>) -> Seq<char> {
    if args.len() <= 1 {
        "Assertion failed"@
    } else {
        "Assertion failed: "@ + joined_text(args, 1)
    }
}

/// What `console.assert` logs: nothing when its first argument is truthy,
/// else an error that quotes the other arguments.
pub fn assert_message(first_is_truthy: bool, args: &Vec<String>) -> (r: Option<LogRecord>)
    ensures
        (args@.len() > 0 && first_is_truthy) <==> r is None,
        r matches Some(rec) ==> rec.level == LogLevel::Error && rec.message@ == assertion_text(args@),
{
    if args.len() > 0 && first_is_truthy {
        return None;
    }
    if args.len() <= 1 {
        return Some(LogRecord { level: LogLevel::Error, message: String::from_str("Assertion failed") });
    }
    let mut message = String::from_str("Assertion failed: ");
    let rest = joined_arguments(args, 1);
    append_str(&mut message, rest.as_str());
    Some(LogRecord { level: LogLevel::Error, message })
}

/// Two spaces for each open group, then the message.
pub open spec fn indented(depth: nat, message: Seq<char>) -> Seq<char>
    decreases depth,
{
    if depth == 0 {
        message
    } else {
        "  "@ + indented((depth - 1) as nat, message)
    }
}

/// Two spaces for each open group.
pub open spec fn indent(depth: nat) -> Seq<char>
    decreases depth,
{
    if depth == 0 {
        Seq::empty()
    } else {
        "  "@ + indent((depth - 1) as nat)
    }
}

proof fn lemma_indent(depth: nat, message: Seq<char>)
    ensures
        indented(depth, message) == indent(depth) + message,
    decreases depth,
{
    if depth > 0 {
        lemma_indent((depth - 1) as nat, message);
        assert(indented(depth, message) =~= indent(depth) + message);
    }
}

/// The message of a `console.timeLog` or `console.timeEnd` line once the
/// elapsed time has been formatted: a non-empty suffix follows after a space.
pub open spec fn with_suffix(message: Seq<char>, suffix: Option<Seq<char>>) -> Seq<char> {
    match suffix {
        Some(s) => if s.len() > 0 {
            message + " "@ + s
        } else {
            message
        },
        None => message,
    }
}

/// Appends a non-empty suffix after a space.
pub fn append_suffix(message: &mut String, suffix: Option<String>)
    ensures
        final(message)@ == with_suffix(
            old(message)@,
            match suffix {
                Some(s) => Some(s@),
                None => None,
            },
        ),
{
    match suffix {
        Some(s) => {
            if s.as_str().unicode_len() > 0 {
                append_str(message, " ");
                append_str(message, s.as_str());
            }
        },
        None => {},
    }
}

/// The state a console keeps between calls: how often each label was
/// counted, when each timer started (`T` is the host's instant), and how
/// many groups are open.
#[verifier::reject_recursive_types(T)]
pub struct ConsoleState<T> {
    counters: StringHashMap<u64>,
    timers: StringHashMap<T>,
    group_depth: usize,
}

/// The message for a counter.
pub open spec fn count_text(label: Seq<char>, count: u64) -> Seq<char> {
    label + ": "@ + decimal(count as nat)
}

/// The warning for a counter that does not exist.
pub open spec fn missing_count_text(label: Seq<char>) -> Seq<char> {
    "Count for '"@ + label + "' does not exist."@
}

/// The warning for a timer that does not exist.
pub open spec fn missing_timer_text(label: Seq<char>) -> Seq<char> {
    "Timer '"@ + label + "' does not exist."@
}

impl<T: Copy> ConsoleState<T> {
    /// The counters by label.
    pub closed spec fn counters(&self) -> Map<Seq<char>, u64> {
        self.counters@
    }

    /// The timers' start instants by label.
    pub closed spec fn timers(&self) -> Map<Seq<char>, T> {
        self.timers@
    }

    /// The number of open groups.
    pub closed spec fn depth(&self) -> nat {
        self.group_depth as nat
    }

    /// A console with no counters, no timers and no open group.
    pub fn new() -> (r: Self)
        ensures
            r.counters() == Map::<Seq<char>, u64>::empty(),
            r.timers() == Map::<Seq<char>, T>::empty(),
            r.depth() == 0,
    {
        ConsoleState { counters: StringHashMap::new(), timers: StringHashMap::new(), group_depth: 0 }
    }

    /// How often a label has been counted, if it has a counter.
    pub fn counter(&self, label: &str) -> (r: Option<u64>)
        ensures
            r == (if self.counters().contains_key(label@) {
                Some(self.counters()[label@])
            } else {
                None::<u64>
            }),
    {
        match self.counters.get(label) {
            Some(c) => Some(*c),
            None => None,
        }
    }

    /// The number of open groups.
    pub fn group_depth(&self) -> (r: usize)
        ensures
            r == self.depth(),
    {
        self.group_depth
    }

    /// The record for a message at the current group depth.
    pub fn log(&self, level: LogLevel, message: String) -> (r: LogRecord)
        ensures
            r.level == level,
            r.message@ == indented(self.depth(), message@),
    {
        if self.group_depth == 0 {
            return LogRecord { level, message };
        }
        let mut m = String::new();
        let mut i: usize = 0;
        while i < self.group_depth
            invariant
                i <= self.group_depth,
                m@ == indent(i as nat),
            decreases self.group_depth - i,
        {
            proof {
                lemma_indent_step(i as nat);
            }
            append_str(&mut m, "  ");
            i = i + 1;
        }
        append_str(&mut m, message.as_str());
        proof {
            lemma_indent(self.group_depth as nat, message@);
        }
        LogRecord { level, message: m }
    }

    /// Counts one more call for a label and logs the new count at info.
    pub fn count(&mut self, label: String) -> (r: LogRecord)
        requires
            old(self).counters().contains_key(label@) ==> old(self).counters()[label@] < u64::MAX,
        ensures
            ({
                let n: u64 = if old(self).counters().contains_key(label@) {
                    (old(self).counters()[label@] + 1) as u64
                } else {
                    1u64
                };
                &&& final(self).counters() == old(self).counters().insert(label@, n)
                &&& r.level == LogLevel::Info
                &&& r.message@ == indented(old(self).depth(), count_text(label@, n))
            }),
            final(self).timers() == old(self).timers(),
            final(self).depth() == old(self).depth(),
    {
        let n: u64 = match self.counters.get(label.as_str()) {
            Some(c) => *c + 1,
            None => 1,
        };
        let mut message = label.clone();
        append_str(&mut message, ": ");
        append_decimal(&mut message, n);
        self.counters.insert(label, n);
        self.log(LogLevel::Info, message)
    }

    /// Forgets a counter; a counter that does not exist gives a warning.
    pub fn count_reset(&mut self, label: &str) -> (r: Option<LogRecord>)
        ensures
            final(self).counters() == old(self).counters().remove(label@),
            final(self).timers() == old(self).timers(),
            final(self).depth() == old(self).depth(),
            old(self).counters().contains_key(label@) <==> r is None,
            r matches Some(rec) ==> rec.level == LogLevel::Warning && rec.message@ == indented(
                old(self).depth(),
                missing_count_text(label@),
            ),
    {
        if self.counters.contains_key(label) {
            self.counters.remove(label);
            return None;
        }
        self.counters.remove(label);
        let mut message = String::from_str("Count for '");
        append_str(&mut message, label);
        append_str(&mut message, "' does not exist.");
        Some(self.log(LogLevel::Warning, message))
    }

    /// Starts (or restarts) a timer.
    pub fn time(&mut self, label: String, now: T)
        ensures
            final(self).timers() == old(self).timers().insert(label@, now),
            final(self).counters() == old(self).counters(),
            final(self).depth() == old(self).depth(),
    {
        self.timers.insert(label, now);
    }

    /// Looks a timer up for `console.timeLog` (`clear` false) or
    /// `console.timeEnd` (`clear` true, which also forgets it): its start,
    /// or the warning for a timer that does not exist.
    pub fn time_log(&mut self, label: &str, clear: bool) -> (r: Result<T, LogRecord>)
        ensures
            match old(self).timers().get(label@) {
                Some(start) => r == Ok::<T, LogRecord>(start),
                None => r matches Err(rec) && rec.level == LogLevel::Warning && rec.message@
                    == indented(old(self).depth(), missing_timer_text(label@)),
            },
            final(self).timers() == (if clear {
                old(self).timers().remove(label@)
            } else {
                old(self).timers()
            }),
            final(self).counters() == old(self).counters(),
            final(self).depth() == old(self).depth(),
    {
        let started: Option<T> = match self.timers.get(label) {
            Some(t) => Some(*t),
            None => None,
        };
        if clear {
            self.timers.remove(label);
        }
        match started {
            Some(t) => Ok(t),
            None => {
                let mut message = String::from_str("Timer '");
                append_str(&mut message, label);
                append_str(&mut message, "' does not exist.");
                Err(self.log(LogLevel::Warning, message))
            },
        }
    }

    /// Opens a group; a non-empty message is logged first, at the depth
    /// outside the new group.
    pub fn group(&mut self, message: String) -> (r: Option<LogRecord>)
        requires
            old(self).depth() < usize::MAX,
        ensures
            final(self).depth() == old(self).depth() + 1,
            final(self).counters() == old(self).counters(),
            final(self).timers() == old(self).timers(),
            r is None <==> message@.len() == 0,
            r matches Some(rec) ==> rec.level == LogLevel::Info && rec.message@ == indented(
                old(self).depth(),
                message@,
            ),
    {
        let record = if message.as_str().unicode_len() > 0 {
            Some(self.log(LogLevel::Info, message))
        } else {
            None
        };
        self.group_depth = self.group_depth + 1;
        record
    }

    /// Closes a group, if one is open.
    pub fn group_end(&mut self)
        ensures
            final(self).depth() == (if old(self).depth() > 0 {
                (old(self).depth() - 1) as nat
            } else {
                0
            }),
            final(self).counters() == old(self).counters(),
            final(self).timers() == old(self).timers(),
    {
        if self.group_depth > 0 {
            self.group_depth = self.group_depth - 1;
        }
    }
}

proof fn lemma_indent_step(i: nat)
    ensures
        indent(i + 1) == indent(i) + "  "@,
    decreases i,
{
    if i > 0 {
        lemma_indent_step((i - 1) as nat);
        assert(indent(i + 1) =~= indent(i) + "  "@);
    } else {
        assert(indent(1) =~= "  "@ + indent(0));
        assert(indent(0) =~= Seq::<char>::empty());
        assert(indent(1) =~= indent(0) + "  "@);
    }
}

/// The logger methods a console's logger must provide, callable.
pub open spec fn required_logger_methods() -> Seq<Seq<char>> {
    seq!["debug"@, "info"@, "warning"@, "error"@]
}

/// The error for a logger without one of the required methods.
pub open spec fn missing_logger_method_text(method: Seq<char>) -> Seq<char> {
    "Console logger must provide callable '"@ + method + "'."@
}

/// Checks a logger: `callable[i]` tells whether the logger has the `i`-th
/// required method (debug, info, warning, error) and it is callable; the
/// first one missing is reported.
pub fn validate_logger(callable: &Vec<bool>) -> (r: Result<(), String>)
    requires
        callable@.len() == 4,
    ensures
        (forall|i: int| 0 <= i < 4 ==> #[trigger] callable@[i]) <==> r is Ok,
        r matches Err(m) ==> exists|i: int|
            0 <= i < 4 && !callable@[i] && (forall|j: int| 0 <= j < i ==> #[trigger] callable@[j])
                && m@ == missing_logger_method_text(#[trigger] required_logger_methods()[i]),
{
    let methods: [&'static str; 4] = ["debug", "info", "warning", "error"];
    for i in 0..4
        invariant
            callable@.len() == 4,
            methods@.map_values(|m: &'static str| m@) == required_logger_methods(),
            forall|j: int| 0 <= j < i ==> #[trigger] callable@[j],
    {
        if !callable[i] {
            let mut m = String::from_str("Console logger must provide callable '");
            append_str(&mut m, methods[i]);
            append_str(&mut m, "'.");
            proof {
                assert(methods@.map_values(|m: &'static str| m@)[i as int] == methods@[i as int]@);
            }
            return Err(m);
        }
    }
    Ok(())
}

} // verus!
