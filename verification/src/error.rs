//! Structured diagnostics of JavaScript exceptions: the message metadata the
//! engine reports, stack traces and their frames, and the exception value
//! raised to the host, together with the text the host displays for it.
use vstd::prelude::*;
use crate::text::{
    append_decimal, clone_opt_string, debug_quote, debug_quoted, decimal, join_seqs, join_strings,
    opt_view, string_views,
};

verus! {

/// Converts the engine's position report, which uses a negative number when it
/// knows no position, to an optional position.
pub fn non_negative_i32(value: i32) -> (result: Option<i32>)
    ensures
        value < 0 ==> result is None,
        value >= 0 ==> result == Some(value),
{
    if value < 0 {
        None
    } else {
        Some(value)
    }
}

/// Converts the engine's frame information, which uses `usize::MAX` when it
/// knows nothing, to an optional value.
pub fn v8_usize_info(value: usize) -> (result: Option<usize>)
    ensures
        value == usize::MAX ==> result is None,
        value != usize::MAX ==> result == Some(value),
{
    if value == usize::MAX {
        None
    } else {
        Some(value)
    }
}

/// A stack-trace index outside `-len .. len`.
#[derive(Clone, Copy, Debug, PartialEq, Eq, Structural)]
pub struct IndexOutOfRange;

/// The position that a Python-style index designates in a sequence of
/// `length` items: negative indices count from the end.
pub open spec fn normalized_index(index: int, length: int) -> Option<int> {
    if index < 0 {
        if -index <= length {
            Some(length + index)
        } else {
            None
        }
    } else if index < length {
        Some(index)
    } else {
        None
    }
}

/// A resolved index lies within the sequence, and each position `p` is
/// designated both by `p` and by `p - length`.
pub proof fn index_laws(index: int, length: int, p: int)
    requires
        length >= 0,
    ensures
        normalized_index(index, length) matches Some(q) ==> 0 <= q < length,
        0 <= p < length ==> normalized_index(p, length) == Some(p),
        0 <= p < length ==> normalized_index(p - length, length) == Some(p),
{
}

/// Resolves a Python-style index (negative values count from the end) against
/// a sequence of `length` items.
pub fn normalize_index(index: isize, length: usize) -> (result: Result<usize, IndexOutOfRange>)
    ensures
        result matches Ok(i) ==> normalized_index(index as int, length as int) == Some(i as int),
        result is Err ==> normalized_index(index as int, length as int) is None,
{
    if index < 0 {
        let magnitude: u128 = (-(index as i128)) as u128;
        if magnitude <= length as u128 {
            Ok(length - (magnitude as usize))
        } else {
            Err(IndexOutOfRange)
        }
    } else {
        let position = index as usize;
        if position < length {
            Ok(position)
        } else {
            Err(IndexOutOfRange)
        }
    }
}

/// The message metadata that the engine attaches to an exception.
#[derive(Clone, Debug)]
pub struct JavaScriptMessage {
    pub text: String,
    pub source_line: Option<String>,
    pub script_resource_name: Option<String>,
    pub line_number: Option<usize>,
    pub start_column: usize,
    pub end_column: usize,
    pub start_position: Option<i32>,
    pub end_position: Option<i32>,
    pub wasm_function_index: Option<i32>,
    pub error_level: i32,
    pub is_shared_cross_origin: bool,
    pub is_opaque: bool,
}

/// One frame of a JavaScript stack trace.
#[derive(Clone, Debug)]
pub struct StackFrame {
    pub line: Option<usize>,
    pub column: Option<usize>,
    pub script_id: Option<usize>,
    pub script_name: Option<String>,
    pub script_name_or_source_url: Option<String>,
    pub script_source: Option<String>,
    pub script_source_mapping_url: Option<String>,
    pub function_name: Option<String>,
    pub is_eval: bool,
    pub is_constructor: bool,
    pub is_wasm: bool,
    pub is_user_javascript: bool,
}

/// A structured JavaScript stack trace.
#[derive(Clone, Debug)]
pub struct StackTrace {
    pub text: Option<String>,
    pub frames: Vec<StackFrame>,
}

/// The exception raised to the host for a JavaScript exception.  Every
/// value is consistent: its displayed text, details and per-message fields
/// are those of its message metadata, and its stack trace carries its stack
/// text.
#[derive(Debug)]
pub struct JavaScriptError {
    display: String,
    message: String,
    message_info: Option<JavaScriptMessage>,
    details: Option<String>,
    source_line: Option<String>,
    script_resource_name: Option<String>,
    line_number: Option<usize>,
    start_column: usize,
    end_column: usize,
    start_position: Option<i32>,
    end_position: Option<i32>,
    wasm_function_index: Option<i32>,
    error_level: i32,
    is_shared_cross_origin: bool,
    is_opaque: bool,
    stack: Option<String>,
    stack_trace: Option<StackTrace>,
}

/// What an exception is made of: its message, its message metadata, its
/// stack text and the frames of its structured stack trace.  Everything else
/// it reports follows from these.
pub struct JavaScriptErrorView {
    pub message: Seq<char>,
    pub message_info: Option<JavaScriptMessage>,
    pub stack: Option<Seq<char>>,
    pub frames: Option<Seq<StackFrame>>,
}

/// The message the engine's report describes: positions and the Wasm
/// function index the engine reports as negative are unknown.
pub open spec fn message_of_raw(raw: RawMessage) -> JavaScriptMessage {
    JavaScriptMessage {
        text: raw.text,
        source_line: raw.source_line,
        script_resource_name: raw.script_resource_name,
        line_number: raw.line_number,
        start_column: raw.start_column,
        end_column: raw.end_column,
        start_position: if raw.start_position < 0 { None } else { Some(raw.start_position) },
        end_position: if raw.end_position < 0 { None } else { Some(raw.end_position) },
        wasm_function_index: if raw.wasm_function_index < 0 {
            None
        } else {
            Some(raw.wasm_function_index)
        },
        error_level: raw.error_level,
        is_shared_cross_origin: raw.is_shared_cross_origin,
        is_opaque: raw.is_opaque,
    }
}

/// The frame the engine's report describes: a line, column or script id the
/// engine reports as `usize::MAX` is unknown.
pub open spec fn frame_of_raw(raw: RawStackFrame) -> StackFrame {
    StackFrame {
        line: if raw.line == usize::MAX { None } else { Some(raw.line) },
        column: if raw.column == usize::MAX { None } else { Some(raw.column) },
        script_id: if raw.script_id == usize::MAX { None } else { Some(raw.script_id) },
        script_name: raw.script_name,
        script_name_or_source_url: raw.script_name_or_source_url,
        script_source: raw.script_source,
        script_source_mapping_url: raw.script_source_mapping_url,
        function_name: raw.function_name,
        is_eval: raw.is_eval,
        is_constructor: raw.is_constructor,
        is_wasm: raw.is_wasm,
        is_user_javascript: raw.is_user_javascript,
    }
}

/// Whether a message's positions and Wasm function index are unknown or
/// non-negative.
pub open spec fn message_positions_known(m: JavaScriptMessage) -> bool {
    &&& (m.start_position matches Some(p) ==> p >= 0)
    &&& (m.end_position matches Some(p) ==> p >= 0)
    &&& (m.wasm_function_index matches Some(i) ==> i >= 0)
}

/// Whether a frame's line, column and script id are unknown or real values,
/// never the engine's `usize::MAX` marker.
pub open spec fn frame_info_known(f: StackFrame) -> bool {
    &&& f.line != Some(usize::MAX)
    &&& f.column != Some(usize::MAX)
    &&& f.script_id != Some(usize::MAX)
}

/// The details of an exception: its message's text.
pub open spec fn message_details(message: Option<JavaScriptMessage>) -> Option<Seq<char>> {
    match message {
        Some(m) => Some(m.text@),
        None => None,
    }
}

/// The first line displayed for an exception: the exception, prefixed with
/// its message's location when there is one.
pub open spec fn located_exception(exception: Seq<char>, message: Option<JavaScriptMessage>) -> Seq<char> {
    match message {
        Some(m) => match location_of(m) {
            Some(loc) => loc + ": "@ + exception,
            None => exception,
        },
        None => exception,
    }
}

/// Whether `part` occurs in `text` as a contiguous run of characters.
pub open spec fn contains_text(text: Seq<char>, part: Seq<char>) -> bool {
    exists|i: int|
        0 <= i && i + part.len() <= text.len() && #[trigger] text.subrange(i, i + part.len()) == part
}

/// What the engine reports for a message, before the library interprets its
/// sentinels: positions and the Wasm function index are negative when unknown.
#[derive(Clone, Debug)]
pub struct RawMessage {
    pub text: String,
    pub source_line: Option<String>,
    pub script_resource_name: Option<String>,
    pub line_number: Option<usize>,
    pub start_column: usize,
    pub end_column: usize,
    pub start_position: i32,
    pub end_position: i32,
    pub wasm_function_index: i32,
    pub error_level: i32,
    pub is_shared_cross_origin: bool,
    pub is_opaque: bool,
}

/// What the engine reports for a stack frame, before the library interprets
/// its sentinels: line, column and script id are `usize::MAX` when unknown.
#[derive(Clone, Debug)]
pub struct RawStackFrame {
    pub line: usize,
    pub column: usize,
    pub script_id: usize,
    pub script_name: Option<String>,
    pub script_name_or_source_url: Option<String>,
    pub script_source: Option<String>,
    pub script_source_mapping_url: Option<String>,
    pub function_name: Option<String>,
    pub is_eval: bool,
    pub is_constructor: bool,
    pub is_wasm: bool,
    pub is_user_javascript: bool,
}

/// The "resource:line" location of a message, when it has one.
pub open spec fn location_of(m: JavaScriptMessage) -> Option<Seq<char>> {
    match (m.script_resource_name, m.line_number) {
        (Some(resource), Some(line)) => Some(resource@ + ":"@ + decimal(line as nat)),
        (Some(resource), None) => Some(resource@),
        (None, Some(line)) => Some("<unknown>:"@ + decimal(line as nat)),
        (None, None) => None,
    }
}

/// The lines of the text displayed for an exception: the exception (prefixed
/// with its location when known), the source line when known, and the stack
/// text unless it repeats one of the lines before it.
pub open spec fn exception_lines(
    exception: Seq<char>,
    message: Option<JavaScriptMessage>,
    stack: Option<Seq<char>>,
) -> Seq<Seq<char>> {
    let location = match message {
        Some(m) => location_of(m),
        None => None,
    };
    let first = match location {
        Some(loc) => loc + ": "@ + exception,
        None => exception,
    };
    let with_source = match message {
        Some(m) => match m.source_line {
            Some(line) => seq![first, line@],
            None => seq![first],
        },
        None => seq![first],
    };
    match stack {
        Some(st) => if with_source.contains(st) {
            with_source
        } else {
            with_source.push(st)
        },
        None => with_source,
    }
}

/// The text displayed for an exception.
pub open spec fn exception_display(
    exception: Seq<char>,
    message: Option<JavaScriptMessage>,
    stack: Option<Seq<char>>,
) -> Seq<char> {
    join_seqs(exception_lines(exception, message, stack), "\n"@)
}

impl JavaScriptMessage {
    /// Interprets the engine's report of a message.
    pub fn from_raw(raw: RawMessage) -> (m: Self)
        ensures
            m == message_of_raw(raw),
            message_positions_known(m),
    {
        JavaScriptMessage {
            text: raw.text,
            source_line: raw.source_line,
            script_resource_name: raw.script_resource_name,
            line_number: raw.line_number,
            start_column: raw.start_column,
            end_column: raw.end_column,
            start_position: non_negative_i32(raw.start_position),
            end_position: non_negative_i32(raw.end_position),
            wasm_function_index: non_negative_i32(raw.wasm_function_index),
            error_level: raw.error_level,
            is_shared_cross_origin: raw.is_shared_cross_origin,
            is_opaque: raw.is_opaque,
        }
    }

    /// A copy of this message.
    pub fn duplicate(&self) -> (r: Self)
        ensures
            r == *self,
    {
        JavaScriptMessage {
            text: self.text.clone(),
            source_line: clone_opt_string(&self.source_line),
            script_resource_name: clone_opt_string(&self.script_resource_name),
            line_number: self.line_number,
            start_column: self.start_column,
            end_column: self.end_column,
            start_position: self.start_position,
            end_position: self.end_position,
            wasm_function_index: self.wasm_function_index,
            error_level: self.error_level,
            is_shared_cross_origin: self.is_shared_cross_origin,
            is_opaque: self.is_opaque,
        }
    }

    /// The message text.
    pub fn text(&self) -> (r: String)
        ensures
            r == self.text,
    {
        self.text.clone()
    }

    /// The source line associated with the message.
    pub fn source_line(&self) -> (r: Option<String>)
        ensures
            r == self.source_line,
    {
        clone_opt_string(&self.source_line)
    }

    /// The script resource name associated with the message.
    pub fn script_resource_name(&self) -> (r: Option<String>)
        ensures
            r == self.script_resource_name,
    {
        clone_opt_string(&self.script_resource_name)
    }

    /// The one-based source line number when the engine reports one.
    pub fn line_number(&self) -> (r: Option<usize>)
        ensures
            r == self.line_number,
    {
        self.line_number
    }

    /// The zero-based start column.
    pub fn start_column(&self) -> (r: usize)
        ensures
            r == self.start_column,
    {
        self.start_column
    }

    /// The zero-based end column.
    pub fn end_column(&self) -> (r: usize)
        ensures
            r == self.end_column,
    {
        self.end_column
    }

    /// The start source position when the engine reports one.
    pub fn start_position(&self) -> (r: Option<i32>)
        ensures
            r == self.start_position,
    {
        self.start_position
    }

    /// The end source position when the engine reports one.
    pub fn end_position(&self) -> (r: Option<i32>)
        ensures
            r == self.end_position,
    {
        self.end_position
    }

    /// The WebAssembly function index when the message came from Wasm.
    pub fn wasm_function_index(&self) -> (r: Option<i32>)
        ensures
            r == self.wasm_function_index,
    {
        self.wasm_function_index
    }

    /// The engine's error level for the message.
    pub fn error_level(&self) -> (r: i32)
        ensures
            r == self.error_level,
    {
        self.error_level
    }

    /// Whether the message is shared cross-origin.
    pub fn is_shared_cross_origin(&self) -> (r: bool)
        ensures
            r == self.is_shared_cross_origin,
    {
        self.is_shared_cross_origin
    }

    /// Whether the message is opaque.
    pub fn is_opaque(&self) -> (r: bool)
        ensures
            r == self.is_opaque,
    {
        self.is_opaque
    }

    /// The message text, as the host's string conversion shows it.
    pub fn __str__(&self) -> (r: String)
        ensures
            r == self.text,
    {
        self.text.clone()
    }

    /// The debug representation `Message("...")`.
    pub fn __repr__(&self) -> (r: String)
        ensures
            r@ == "Message("@ + debug_quoted(self.text@) + ")"@,
    {
        let mut r = String::from_str("Message(");
        let quoted = debug_quote(self.text.as_str());
        r.append(quoted.as_str());
        r.append(")");
        r
    }

    /// The "resource:line" location of the message, when it has one.
    pub fn location(&self) -> (r: Option<String>)
        ensures
            opt_view(r) == location_of(*self),
    {
        match (&self.script_resource_name, self.line_number) {
            (Some(resource), Some(line)) => {
                let mut r = resource.clone();
                r.append(":");
                append_decimal(&mut r, line as u64);
                Some(r)
            },
            (Some(resource), None) => Some(resource.clone()),
            (None, Some(line)) => {
                let mut r = String::from_str("<unknown>:");
                append_decimal(&mut r, line as u64);
                Some(r)
            },
            (None, None) => None,
        }
    }
}

/// The text of the host exception for a JavaScript exception: the exception
/// (prefixed with its location when the message knows one), then the source
/// line, then the stack text unless it repeats a line already shown, one per line.
pub fn format_js_exception(
    exception: &str,
    message: Option<&JavaScriptMessage>,
    stack: Option<&str>,
) -> (r: String)
    ensures
        r@ == exception_display(
            exception@,
            match message {
                Some(m) => Some(*m),
                None => None,
            },
            match stack {
                Some(st) => Some(st@),
                None => None,
            },
        ),
{
    let ghost msg = match message {
        Some(m) => Some(*m),
        None => None::<JavaScriptMessage>,
    };
    let ghost st = match stack {
        Some(s) => Some(s@),
        None => None::<Seq<char>>,
    };
    let mut parts: Vec<String> = Vec::new();
    let location = match message {
        Some(m) => m.location(),
        None => None,
    };
    match location {
        Some(loc) => {
            let mut first = loc;
            first.append(": ");
            first.append(exception);
            parts.push(first);
        },
        None => {
            parts.push(String::from_str(exception));
        },
    }
    match message {
        Some(m) => match &m.source_line {
            Some(line) => {
                parts.push(line.clone());
            },
            None => {},
        },
        None => {},
    }
    let ghost before_stack = string_views(parts@);
    proof {
        let lines = exception_lines(exception@, msg, None);
        assert(before_stack =~= lines);
    }
    match stack {
        Some(st_str) => {
            let stack_string = String::from_str(st_str);
            let mut seen = false;
            let count = parts.len();
            for i in 0..count
                invariant
                    count == parts@.len(),
                    before_stack == string_views(parts@),
                    stack_string@ == st_str@,
                    seen <==> exists|j: int| 0 <= j < i && #[trigger] parts@[j]@ == st_str@,
            {
                if parts[i] == stack_string {
                    seen = true;
                }
            }
            proof {
                if seen {
                    let j = choose|j: int| 0 <= j < count && #[trigger] parts@[j]@ == st_str@;
                    assert(before_stack[j] == st_str@);
                    assert(before_stack.contains(st_str@));
                } else {
                    assert forall|j: int| 0 <= j < before_stack.len() implies before_stack[j] != st_str@ by {
                        assert(before_stack[j] == parts@[j]@);
                    }
                    assert(!before_stack.contains(st_str@));
                }
            }
            if !seen {
                parts.push(stack_string);
                assert(string_views(parts@) =~= before_stack.push(st_str@));
            }
        },
        None => {},
    }
    proof {
        assert(string_views(parts@) =~= exception_lines(exception@, msg, st));
    }
    join_strings(&parts, "\n")
}

impl StackFrame {
    /// Interprets the engine's report of a stack frame.
    pub fn from_raw(raw: RawStackFrame) -> (f: Self)
        ensures
            f == frame_of_raw(raw),
            frame_info_known(f),
    {
        StackFrame {
            line: v8_usize_info(raw.line),
            column: v8_usize_info(raw.column),
            script_id: v8_usize_info(raw.script_id),
            script_name: raw.script_name,
            script_name_or_source_url: raw.script_name_or_source_url,
            script_source: raw.script_source,
            script_source_mapping_url: raw.script_source_mapping_url,
            function_name: raw.function_name,
            is_eval: raw.is_eval,
            is_constructor: raw.is_constructor,
            is_wasm: raw.is_wasm,
            is_user_javascript: raw.is_user_javascript,
        }
    }

    /// A copy of this frame.
    pub fn duplicate(&self) -> (r: Self)
        ensures
            r == *self,
    {
        StackFrame {
            line: self.line,
            column: self.column,
            script_id: self.script_id,
            script_name: clone_opt_string(&self.script_name),
            script_name_or_source_url: clone_opt_string(&self.script_name_or_source_url),
            script_source: clone_opt_string(&self.script_source),
            script_source_mapping_url: clone_opt_string(&self.script_source_mapping_url),
            function_name: clone_opt_string(&self.function_name),
            is_eval: self.is_eval,
            is_constructor: self.is_constructor,
            is_wasm: self.is_wasm,
            is_user_javascript: self.is_user_javascript,
        }
    }

    /// The one-based source line.
    pub fn line(&self) -> (r: Option<usize>)
        ensures
            r == self.line,
    {
        self.line
    }

    /// The one-based source line (same as `line`).
    pub fn line_number(&self) -> (r: Option<usize>)
        ensures
            r == self.line,
    {
        self.line
    }

    /// The zero-based source column.
    pub fn column(&self) -> (r: Option<usize>)
        ensures
            r == self.column,
    {
        self.column
    }

    /// The engine's script id.
    pub fn script_id(&self) -> (r: Option<usize>)
        ensures
            r == self.script_id,
    {
        self.script_id
    }

    /// The script name.
    pub fn script_name(&self) -> (r: Option<String>)
        ensures
            r == self.script_name,
    {
        clone_opt_string(&self.script_name)
    }

    /// The script name or source URL.
    pub fn script_name_or_source_url(&self) -> (r: Option<String>)
        ensures
            r == self.script_name_or_source_url,
    {
        clone_opt_string(&self.script_name_or_source_url)
    }

    /// The script source when the engine provides it.
    pub fn script_source(&self) -> (r: Option<String>)
        ensures
            r == self.script_source,
    {
        clone_opt_string(&self.script_source)
    }

    /// The script source mapping URL.
    pub fn script_source_mapping_url(&self) -> (r: Option<String>)
        ensures
            r == self.script_source_mapping_url,
    {
        clone_opt_string(&self.script_source_mapping_url)
    }

    /// The JavaScript function name.
    pub fn function_name(&self) -> (r: Option<String>)
        ensures
            r == self.function_name,
    {
        clone_opt_string(&self.function_name)
    }

    /// Whether this frame came from eval.
    pub fn is_eval(&self) -> (r: bool)
        ensures
            r == self.is_eval,
    {
        self.is_eval
    }

    /// Whether this frame is a constructor call.
    pub fn is_constructor(&self) -> (r: bool)
        ensures
            r == self.is_constructor,
    {
        self.is_constructor
    }

    /// Whether this frame is WebAssembly.
    pub fn is_wasm(&self) -> (r: bool)
        ensures
            r == self.is_wasm,
    {
        self.is_wasm
    }

    /// Whether the engine considers this frame user JavaScript.
    pub fn is_user_javascript(&self) -> (r: bool)
        ensures
            r == self.is_user_javascript,
    {
        self.is_user_javascript
    }

    /// The debug representation
    /// `StackFrame(function="name", location=where:line:column)`, where the
    /// name defaults to `<anonymous>`, the location to the script name or
    /// source URL, then the script name, then `<unknown>`, and the line and
    /// column are shown as far as they are known (a column only with a line).
    pub fn __repr__(&self) -> (r: String)
        ensures
            r@ == frame_repr(*self),
    {
        let function_name: &str = match &self.function_name {
            Some(name) => name.as_str(),
            None => "<anonymous>",
        };
        let location: &str = match &self.script_name_or_source_url {
            Some(url) => url.as_str(),
            None => match &self.script_name {
                Some(name) => name.as_str(),
                None => "<unknown>",
            },
        };
        let mut r = String::from_str("StackFrame(function=");
        let quoted = debug_quote(function_name);
        r.append(quoted.as_str());
        r.append(", location=");
        r.append(location);
        match (self.line, self.column) {
            (Some(line), Some(column)) => {
                r.append(":");
                append_decimal(&mut r, line as u64);
                r.append(":");
                append_decimal(&mut r, column as u64);
            },
            (Some(line), None) => {
                r.append(":");
                append_decimal(&mut r, line as u64);
            },
            _ => {},
        }
        r.append(")");
        r
    }
}

/// The function name shown for a frame.
pub open spec fn frame_function_name(f: StackFrame) -> Seq<char> {
    match f.function_name {
        Some(name) => name@,
        None => "<anonymous>"@,
    }
}

/// The location shown for a frame.
pub open spec fn frame_location(f: StackFrame) -> Seq<char> {
    match f.script_name_or_source_url {
        Some(url) => url@,
        None => match f.script_name {
            Some(name) => name@,
            None => "<unknown>"@,
        },
    }
}

/// The debug representation of a frame.
pub open spec fn frame_repr(f: StackFrame) -> Seq<char> {
    let position = match (f.line, f.column) {
        (Some(line), Some(column)) => ":"@ + decimal(line as nat) + ":"@ + decimal(column as nat),
        (Some(line), None) => ":"@ + decimal(line as nat),
        _ => Seq::empty(),
    };
    "StackFrame(function="@ + debug_quoted(frame_function_name(f)) + ", location="@
        + frame_location(f) + position + ")"@
}

/// A copy of a vector of frames.
pub fn duplicate_frames(frames: &Vec<StackFrame>) -> (r: Vec<StackFrame>)
    ensures
        r@ == frames@,
{
    let mut r: Vec<StackFrame> = Vec::new();
    let n = frames.len();
    for i in 0..n
        invariant
            n == frames@.len(),
            r@ == frames@.take(i as int),
    {
        r.push(frames[i].duplicate());
        assert(r@ =~= frames@.take(i + 1));
    }
    assert(frames@.take(n as int) =~= frames@);
    r
}

impl StackTrace {
    /// A copy of this stack trace.
    pub fn duplicate(&self) -> (r: Self)
        ensures
            r.text == self.text,
            r.frames@ == self.frames@,
    {
        StackTrace { text: clone_opt_string(&self.text), frames: duplicate_frames(&self.frames) }
    }

    /// The formatted stack text when the engine provides one.
    pub fn text(&self) -> (r: Option<String>)
        ensures
            r == self.text,
    {
        clone_opt_string(&self.text)
    }

    /// The stack frames.
    pub fn frames(&self) -> (r: Vec<StackFrame>)
        ensures
            r@ == self.frames@,
    {
        duplicate_frames(&self.frames)
    }

    /// The number of stack frames.
    pub fn __len__(&self) -> (r: usize)
        ensures
            r == self.frames@.len(),
    {
        self.frames.len()
    }

    /// The frame at a Python-style index (negative values count from the end).
    pub fn __getitem__(&self, index: isize) -> (r: Result<StackFrame, IndexOutOfRange>)
        ensures
            match normalized_index(index as int, self.frames@.len() as int) {
                Some(i) => r == Ok::<StackFrame, IndexOutOfRange>(self.frames@[i]),
                None => r is Err,
            },
            0 <= index < self.frames@.len() ==> r == Ok::<StackFrame, IndexOutOfRange>(
                self.frames@[index as int],
            ),
            -self.frames@.len() <= index < 0 ==> r == Ok::<StackFrame, IndexOutOfRange>(
                self.frames@[self.frames@.len() + index],
            ),
            (index >= self.frames@.len() || index < -self.frames@.len()) ==> r is Err,
    {
        match normalize_index(index, self.frames.len()) {
            Ok(i) => Ok(self.frames[i].duplicate()),
            Err(e) => Err(e),
        }
    }

    /// The formatted stack text, or the empty string.
    pub fn __str__(&self) -> (r: String)
        ensures
            r@ == match self.text {
                Some(t) => t@,
                None => Seq::<char>::empty(),
            },
    {
        match &self.text {
            Some(t) => t.clone(),
            None => String::new(),
        }
    }

    /// The debug representation `StackTrace(frame_count=N)`.
    pub fn __repr__(&self) -> (r: String)
        ensures
            r@ == "StackTrace(frame_count="@ + decimal(self.frames@.len() as nat) + ")"@,
    {
        let mut r = String::from_str("StackTrace(frame_count=");
        append_decimal(&mut r, self.frames.len() as u64);
        r.append(")");
        r
    }
}

/// The frames the engine's frame reports describe, in order.
pub fn frames_from_raw(raws: Vec<RawStackFrame>) -> (r: Vec<StackFrame>)
    ensures
        r@ == raws@.map_values(|raw: RawStackFrame| frame_of_raw(raw)),
        forall|i: int| 0 <= i < r@.len() ==> frame_info_known(#[trigger] r@[i]),
{
    let ghost all = raws@;
    let mut rest = raws;
    let mut out: Vec<StackFrame> = Vec::new();
    let ghost mut k: int = 0;
    while rest.len() > 0
        invariant
            0 <= k <= all.len(),
            rest@ == all.skip(k),
            out@ == all.take(k).map_values(|raw: RawStackFrame| frame_of_raw(raw)),
            forall|i: int| 0 <= i < out@.len() ==> frame_info_known(#[trigger] out@[i]),
        decreases rest@.len(),
    {
        let raw = rest.remove(0);
        proof {
            assert(all[k] == raw);
        }
        out.push(StackFrame::from_raw(raw));
        proof {
            assert(out@ =~= all.take(k + 1).map_values(|raw: RawStackFrame| frame_of_raw(raw)));
            assert(rest@ =~= all.skip(k + 1));
            k = k + 1;
        }
    }
    assert(all.take(all.len() as int) =~= all);
    out
}

impl View for JavaScriptError {
    type V = JavaScriptErrorView;

    closed spec fn view(&self) -> JavaScriptErrorView {
        JavaScriptErrorView {
            message: self.message@,
            message_info: self.message_info,
            stack: opt_view(self.stack),
            frames: match self.stack_trace {
                Some(t) => Some(t.frames@),
                None => None,
            },
        }
    }
}

impl JavaScriptError {
    /// The fields derived from the message metadata agree with it, and the
    /// stack trace's text is the stack.
    #[verifier::type_invariant]
    spec fn consistent(self) -> bool {
        &&& self.display@ == exception_display(self.message@, self.message_info, opt_view(self.stack))
        &&& opt_view(self.details) == message_details(self.message_info)
        &&& (self.stack_trace matches Some(t) ==> opt_view(t.text) == opt_view(self.stack))
        &&& (self.message_info matches Some(m) ==> message_positions_known(m))
        &&& (self.stack_trace matches Some(t) ==> forall|i: int|
            0 <= i < t.frames@.len() ==> frame_info_known(#[trigger] t.frames@[i]))
        &&& self.source_line == (match self.message_info {
            Some(m) => m.source_line,
            None => None,
        })
        &&& self.script_resource_name == (match self.message_info {
            Some(m) => m.script_resource_name,
            None => None,
        })
        &&& self.line_number == (match self.message_info {
            Some(m) => m.line_number,
            None => None,
        })
        &&& self.start_column == (match self.message_info {
            Some(m) => m.start_column,
            None => 0,
        })
        &&& self.end_column == (match self.message_info {
            Some(m) => m.end_column,
            None => 0,
        })
        &&& self.start_position == (match self.message_info {
            Some(m) => m.start_position,
            None => None,
        })
        &&& self.end_position == (match self.message_info {
            Some(m) => m.end_position,
            None => None,
        })
        &&& self.wasm_function_index == (match self.message_info {
            Some(m) => m.wasm_function_index,
            None => None,
        })
        &&& self.error_level == (match self.message_info {
            Some(m) => m.error_level,
            None => 0,
        })
        &&& self.is_shared_cross_origin == (match self.message_info {
            Some(m) => m.is_shared_cross_origin,
            None => false,
        })
        &&& self.is_opaque == (match self.message_info {
            Some(m) => m.is_opaque,
            None => false,
        })
    }

    /// An exception carrying only a message, displayed as that message.
    pub fn new(message: String) -> (e: Self)
        ensures
            e@.message == message@,
            e@.message_info is None,
            e@.stack is None,
            e@.frames is None,
    {
        proof {
            exception_display_laws(message@, None, None);
        }
        JavaScriptError {
            display: message.clone(),
            message,
            message_info: None,
            details: None,
            source_line: None,
            script_resource_name: None,
            line_number: None,
            start_column: 0,
            end_column: 0,
            start_position: None,
            end_position: None,
            wasm_function_index: None,
            error_level: 0,
            is_shared_cross_origin: false,
            is_opaque: false,
            stack: None,
            stack_trace: None,
        }
    }

    /// The exception for what the engine caught: the exception's string form
    /// (or `fallback` when it has none), its message metadata, the stack
    /// text, and the frames of the structured stack trace when the engine
    /// has one.  The details are the message's text, the stack trace carries
    /// the stack text, and the message fields come from the metadata, with
    /// zero and `false` where there is none.
    pub fn from_caught(
        exception: Option<String>,
        fallback: &str,
        message: Option<RawMessage>,
        stack: Option<String>,
        frames: Option<Vec<RawStackFrame>>,
    ) -> (e: Self)
        ensures
            e@.message == match exception {
                Some(x) => x@,
                None => fallback@,
            },
            e@.message_info == match message {
                Some(raw) => Some(message_of_raw(raw)),
                None => None::<JavaScriptMessage>,
            },
            e@.stack == opt_view(stack),
            e@.frames == match frames {
                Some(f) => Some(f@.map_values(|raw: RawStackFrame| frame_of_raw(raw))),
                None => None::<Seq<StackFrame>>,
            },
    {
        let exception_text = match exception {
            Some(x) => x,
            None => String::from_str(fallback),
        };
        let message = match message {
            Some(raw) => Some(JavaScriptMessage::from_raw(raw)),
            None => None,
        };
        let display = format_js_exception(
            exception_text.as_str(),
            message.as_ref(),
            match &stack {
                Some(s) => Some(s.as_str()),
                None => None,
            },
        );
        let stack_trace = match frames {
            Some(f) => Some(StackTrace { text: clone_opt_string(&stack), frames: frames_from_raw(f) }),
            None => None,
        };
        match message {
            Some(m) => JavaScriptError {
                display,
                message: exception_text,
                details: Some(m.text.clone()),
                source_line: clone_opt_string(&m.source_line),
                script_resource_name: clone_opt_string(&m.script_resource_name),
                line_number: m.line_number,
                start_column: m.start_column,
                end_column: m.end_column,
                start_position: m.start_position,
                end_position: m.end_position,
                wasm_function_index: m.wasm_function_index,
                error_level: m.error_level,
                is_shared_cross_origin: m.is_shared_cross_origin,
                is_opaque: m.is_opaque,
                message_info: Some(m),
                stack,
                stack_trace,
            },
            None => JavaScriptError {
                display,
                message: exception_text,
                message_info: None,
                details: None,
                source_line: None,
                script_resource_name: None,
                line_number: None,
                start_column: 0,
                end_column: 0,
                start_position: None,
                end_position: None,
                wasm_function_index: None,
                error_level: 0,
                is_shared_cross_origin: false,
                is_opaque: false,
                stack,
                stack_trace,
            },
        }
    }

    /// A copy of this exception.
    pub fn duplicate(&self) -> (r: Self)
        ensures
            r@ == self@,
    {
        proof {
            use_type_invariant(self);
        }
        JavaScriptError {
            display: self.display.clone(),
            message: self.message.clone(),
            message_info: match &self.message_info {
                Some(m) => Some(m.duplicate()),
                None => None,
            },
            details: clone_opt_string(&self.details),
            source_line: clone_opt_string(&self.source_line),
            script_resource_name: clone_opt_string(&self.script_resource_name),
            line_number: self.line_number,
            start_column: self.start_column,
            end_column: self.end_column,
            start_position: self.start_position,
            end_position: self.end_position,
            wasm_function_index: self.wasm_function_index,
            error_level: self.error_level,
            is_shared_cross_origin: self.is_shared_cross_origin,
            is_opaque: self.is_opaque,
            stack: clone_opt_string(&self.stack),
            stack_trace: match &self.stack_trace {
                Some(t) => Some(t.duplicate()),
                None => None,
            },
        }
    }

    /// The exception message.
    pub fn message(&self) -> (r: String)
        ensures
            r@ == self@.message,
    {
        self.message.clone()
    }

    /// The structured message metadata when available.
    pub fn message_info(&self) -> (r: Option<JavaScriptMessage>)
        ensures
            r == self@.message_info,
            r matches Some(m) ==> message_positions_known(m),
    {
        proof {
            use_type_invariant(self);
        }
        match &self.message_info {
            Some(m) => Some(m.duplicate()),
            None => None,
        }
    }

    /// The engine's formatted message details when available: the message's
    /// text.
    pub fn details(&self) -> (r: Option<String>)
        ensures
            opt_view(r) == message_details(self@.message_info),
    {
        proof {
            use_type_invariant(self);
        }
        clone_opt_string(&self.details)
    }

    /// The source line associated with the exception.
    pub fn source_line(&self) -> (r: Option<String>)
        ensures
            r == match self@.message_info {
                Some(m) => m.source_line,
                None => None,
            },
    {
        proof {
            use_type_invariant(self);
        }
        clone_opt_string(&self.source_line)
    }

    /// The script resource name associated with the exception.
    pub fn script_resource_name(&self) -> (r: Option<String>)
        ensures
            r == match self@.message_info {
                Some(m) => m.script_resource_name,
                None => None,
            },
    {
        proof {
            use_type_invariant(self);
        }
        clone_opt_string(&self.script_resource_name)
    }

    /// The one-based source line number when the engine reports one.
    pub fn line_number(&self) -> (r: Option<usize>)
        ensures
            r == match self@.message_info {
                Some(m) => m.line_number,
                None => None,
            },
    {
        proof {
            use_type_invariant(self);
        }
        self.line_number
    }

    /// The zero-based start column.
    pub fn start_column(&self) -> (r: usize)
        ensures
            r == match self@.message_info {
                Some(m) => m.start_column,
                None => 0,
            },
    {
        proof {
            use_type_invariant(self);
        }
        self.start_column
    }

    /// The zero-based end column.
    pub fn end_column(&self) -> (r: usize)
        ensures
            r == match self@.message_info {
                Some(m) => m.end_column,
                None => 0,
            },
    {
        proof {
            use_type_invariant(self);
        }
        self.end_column
    }

    /// The start source position when the engine reports one.
    pub fn start_position(&self) -> (r: Option<i32>)
        ensures
            r == match self@.message_info {
                Some(m) => m.start_position,
                None => None,
            },
            r matches Some(p) ==> p >= 0,
    {
        proof {
            use_type_invariant(self);
        }
        self.start_position
    }

    /// The end source position when the engine reports one.
    pub fn end_position(&self) -> (r: Option<i32>)
        ensures
            r == match self@.message_info {
                Some(m) => m.end_position,
                None => None,
            },
            r matches Some(p) ==> p >= 0,
    {
        proof {
            use_type_invariant(self);
        }
        self.end_position
    }

    /// The WebAssembly function index when the error came from Wasm.
    pub fn wasm_function_index(&self) -> (r: Option<i32>)
        ensures
            r == match self@.message_info {
                Some(m) => m.wasm_function_index,
                None => None,
            },
            r matches Some(p) ==> p >= 0,
    {
        proof {
            use_type_invariant(self);
        }
        self.wasm_function_index
    }

    /// The engine's message error level.
    pub fn error_level(&self) -> (r: i32)
        ensures
            r == match self@.message_info {
                Some(m) => m.error_level,
                None => 0,
            },
    {
        proof {
            use_type_invariant(self);
        }
        self.error_level
    }

    /// Whether the message is shared cross-origin.
    pub fn is_shared_cross_origin(&self) -> (r: bool)
        ensures
            r == match self@.message_info {
                Some(m) => m.is_shared_cross_origin,
                None => false,
            },
    {
        proof {
            use_type_invariant(self);
        }
        self.is_shared_cross_origin
    }

    /// Whether the message is opaque.
    pub fn is_opaque(&self) -> (r: bool)
        ensures
            r == match self@.message_info {
                Some(m) => m.is_opaque,
                None => false,
            },
    {
        proof {
            use_type_invariant(self);
        }
        self.is_opaque
    }

    /// The formatted JavaScript stack string.
    pub fn stack(&self) -> (r: Option<String>)
        ensures
            opt_view(r) == self@.stack,
    {
        clone_opt_string(&self.stack)
    }

    /// The structured stack trace when available; its text is the stack.
    pub fn stack_trace(&self) -> (r: Option<StackTrace>)
        ensures
            match self@.frames {
                Some(f) => r matches Some(t) && opt_view(t.text) == self@.stack && t.frames@ == f,
                None => r is None,
            },
    {
        proof {
            use_type_invariant(self);
        }
        match &self.stack_trace {
            Some(t) => Some(t.duplicate()),
            None => None,
        }
    }

    /// The stack frames, or none when there is no stack trace.
    pub fn frames(&self) -> (r: Vec<StackFrame>)
        ensures
            r@ == match self@.frames {
                Some(f) => f,
                None => Seq::<StackFrame>::empty(),
            },
            forall|i: int| 0 <= i < r@.len() ==> frame_info_known(#[trigger] r@[i]),
    {
        proof {
            use_type_invariant(self);
        }
        match &self.stack_trace {
            Some(t) => duplicate_frames(&t.frames),
            None => Vec::new(),
        }
    }

    /// The formatted exception text.
    pub fn __str__(&self) -> (r: String)
        ensures
            r@ == exception_display(self@.message, self@.message_info, self@.stack),
    {
        proof {
            use_type_invariant(self);
        }
        self.display.clone()
    }
}

/// The text displayed for an exception starts with the located exception,
/// followed on the next line by the source line when the message has one;
/// it contains the exception and the stack text; and an exception with
/// neither message metadata nor stack is displayed as itself.
pub proof fn exception_display_laws(
    exception: Seq<char>,
    message: Option<JavaScriptMessage>,
    stack: Option<Seq<char>>,
)
    ensures
        located_exception(exception, message).is_prefix_of(exception_display(exception, message, stack)),
        message matches Some(m) ==> (m.source_line matches Some(sl) ==> (located_exception(
            exception,
            message,
        ) + "\n"@ + sl@).is_prefix_of(exception_display(exception, message, stack))),
        contains_text(exception_display(exception, message, stack), exception),
        stack matches Some(st) ==> contains_text(exception_display(exception, message, stack), st),
        (message is None && stack is None) ==> exception_display(exception, message, stack) == exception,
{
    let sep = "\n"@;
    let lines = exception_lines(exception, message, stack);
    let d = exception_display(exception, message, stack);
    let head = located_exception(exception, message);
    assert(lines[0] == head);
    assert(1 <= lines.len() <= 3);
    lemma_join_prefix(lines, sep, 1);
    assert(lines.take(1) =~= seq![head]);
    assert(join_seqs(seq![head], sep) == head);
    if let Some(m) = message {
        if let Some(sl) = m.source_line {
            assert(lines[1] == sl@);
            lemma_join_prefix(lines, sep, 2);
            assert(lines.take(2) =~= seq![head, sl@]);
            assert(seq![head, sl@].drop_last() =~= seq![head]);
            assert(join_seqs(seq![head, sl@], sep) == head + sep + sl@);
            assert((head + sep + sl@).is_prefix_of(d));
        }
    }
    let i = head.len() - exception.len();
    assert(head.subrange(i, head.len() as int) =~= exception);
    assert(d.subrange(i, i + exception.len()) =~= exception) by {
        assert(d.subrange(0, head.len() as int) =~= head);
        assert(d.subrange(i, i + exception.len()) =~= head.subrange(i, head.len() as int));
    }
    if let Some(st) = stack {
        assert(lines.contains(st));
        let k = choose|k: int| 0 <= k < lines.len() && lines[k] == st;
        lemma_join_contains(lines, sep, k);
    }
    if message is None && stack is None {
        assert(lines =~= seq![exception]);
    }
}

/// Each part of a joined sequence occurs in the join.
proof fn lemma_join_contains(parts: Seq<Seq<char>>, sep: Seq<char>, k: int)
    requires
        0 <= k < parts.len(),
    ensures
        contains_text(join_seqs(parts, sep), parts[k]),
    decreases parts.len(),
{
    let j = join_seqs(parts, sep);
    if parts.len() == 1 {
        assert(j.subrange(0, 0int + parts[0].len()) =~= parts[0]);
        assert(contains_text(j, parts[k]));
    } else {
        let front = join_seqs(parts.drop_last(), sep);
        assert(j == front + sep + parts.last());
        if k == parts.len() - 1 {
            let i = j.len() - parts[k].len();
            assert(j.subrange(i, i + parts[k].len()) =~= parts[k]);
            assert(contains_text(j, parts[k]));
        } else {
            lemma_join_contains(parts.drop_last(), sep, k);
            assert(parts.drop_last()[k] == parts[k]);
            let i = choose|i: int|
                0 <= i && i + parts[k].len() <= front.len() && #[trigger] front.subrange(i, i + parts[k].len())
                    == parts[k];
            assert(j.subrange(i, i + parts[k].len()) =~= front.subrange(i, i + parts[k].len()));
            assert(contains_text(j, parts[k]));
        }
    }
}

/// The join of the first parts is a prefix of the join of all of them.
proof fn lemma_join_prefix(parts: Seq<Seq<char>>, sep: Seq<char>, n: int)
    requires
        1 <= n <= parts.len(),
    ensures
        join_seqs(parts.take(n), sep).is_prefix_of(join_seqs(parts, sep)),
    decreases parts.len(),
{
    if n == parts.len() {
        assert(parts.take(n) =~= parts);
    } else {
        lemma_join_prefix(parts.drop_last(), sep, n);
        assert(parts.drop_last().take(n) =~= parts.take(n));
        let front = join_seqs(parts.drop_last(), sep);
        let x = join_seqs(parts.take(n), sep);
        assert(join_seqs(parts, sep) == front + sep + parts.last());
        assert((front + sep + parts.last()).subrange(0, x.len() as int) =~= front.subrange(0, x.len() as int));
    }
}

} // verus!
