//! Compiling scripts, functions and modules: the origin each one is given,
//! the compile options, what is kept about a compiled script, and how a
//! failed run is reported.
use vstd::prelude::*;
use crate::text::{clone_opt_string, opt_view};

verus! {

/// The origin a source is compiled with.
pub struct ScriptOrigin {
    pub resource_name: String,
    pub script_id: i32,
    pub source_map_url: Option<String>,
    pub is_module: bool,
}

/// The origin of a script or function compiled from a context: the file
/// name, the script id and the source map URL given, not a module.
pub fn script_origin(filename: &str, script_id: i32, source_map_url: Option<&str>) -> (r: ScriptOrigin)
    ensures
        r.resource_name@ == filename@,
        r.script_id == script_id,
        opt_view(r.source_map_url) == match source_map_url {
            Some(u) => Some(u@),
            None => None,
        },
        !r.is_module,
{
    ScriptOrigin {
        resource_name: filename.to_string(),
        script_id,
        source_map_url: match source_map_url {
            Some(u) => Some(u.to_string()),
            None => None,
        },
        is_module: false,
    }
}

/// The origin of a module: its specifier as the resource name, script id 0,
/// no source map URL.
pub fn module_origin(specifier: &str) -> (r: ScriptOrigin)
    ensures
        r.resource_name@ == specifier@,
        r.script_id == 0,
        r.source_map_url is None,
        r.is_module,
{
    ScriptOrigin { resource_name: specifier.to_string(), script_id: 0, source_map_url: None, is_module: true }
}

/// The resource name of a script compiled from a bare scope.
pub open spec fn scope_resource_name() -> Seq<char> {
    "<scope>"@
}

/// The origin of a script compiled from a bare scope.
pub fn scope_origin(script_id: i32) -> (r: ScriptOrigin)
    ensures
        r.resource_name@ == scope_resource_name(),
        r.script_id == script_id,
        r.source_map_url is None,
        !r.is_module,
{
    ScriptOrigin { resource_name: String::from_str("<scope>"), script_id, source_map_url: None, is_module: false }
}

/// Whether the engine consumes a code cache.
#[derive(Clone, Copy, Debug, PartialEq, Eq, Structural)]
pub enum CompileOptions {
    NoCompileOptions,
    ConsumeCodeCache,
}

/// The compile options: a code cache is consumed exactly when cached data
/// was given.
pub fn compile_options(has_cached_data: bool) -> (r: CompileOptions)
    ensures
        r == (if has_cached_data {
            CompileOptions::ConsumeCodeCache
        } else {
            CompileOptions::NoCompileOptions
        }),
{
    if has_cached_data {
        CompileOptions::ConsumeCodeCache
    } else {
        CompileOptions::NoCompileOptions
    }
}

/// Whether the engine rejected the cached data: only when there was cached
/// data and the engine says so.
pub fn cached_data_rejected(rejected: Option<bool>) -> (r: bool)
    ensures
        r == match rejected {
            Some(b) => b,
            None => false,
        },
{
    match rejected {
        Some(b) => b,
        None => false,
    }
}

/// The text of an optional engine value: none for `null` or `undefined`
/// (or when it does not convert), else its string conversion.
pub fn optional_value_to_string(is_null_or_undefined: bool, converted: Option<String>) -> (r: Option<String>)
    ensures
        r == (if is_null_or_undefined {
            None
        } else {
            converted
        }),
{
    if is_null_or_undefined {
        None
    } else {
        converted
    }
}

/// What is kept about a compiled script.
pub struct ScriptInfo {
    source: String,
    script_id: i32,
    resource_name: Option<String>,
    source_map_url: Option<String>,
    source_url: Option<String>,
    source_mapping_url: Option<String>,
    cached_data_rejected: bool,
}

impl ScriptInfo {
    /// The source text.
    pub closed spec fn spec_source(&self) -> Seq<char> {
        self.source@
    }

    /// The script id.
    pub closed spec fn spec_script_id(&self) -> i32 {
        self.script_id
    }

    /// The resource name given at compile time.
    pub closed spec fn spec_resource_name(&self) -> Option<Seq<char>> {
        opt_view(self.resource_name)
    }

    /// The source map URL given at compile time.
    pub closed spec fn spec_source_map_url(&self) -> Option<Seq<char>> {
        opt_view(self.source_map_url)
    }

    /// The source URL the engine found in the source.
    pub closed spec fn spec_source_url(&self) -> Option<Seq<char>> {
        opt_view(self.source_url)
    }

    /// The source mapping URL the engine found in the source.
    pub closed spec fn spec_source_mapping_url(&self) -> Option<Seq<char>> {
        opt_view(self.source_mapping_url)
    }

    /// Whether the engine rejected the cached data given.
    pub closed spec fn spec_cached_data_rejected(&self) -> bool {
        self.cached_data_rejected
    }

    /// A script compiled from a context under a file name.
    pub fn compiled(
        source: String,
        script_id: i32,
        filename: &str,
        source_map_url: Option<&str>,
        source_url: Option<String>,
        source_mapping_url: Option<String>,
        cached_data_rejected: bool,
    ) -> (r: Self)
        ensures
            r.spec_source() == source@,
            r.spec_script_id() == script_id,
            r.spec_resource_name() == Some(filename@),
            r.spec_source_map_url() == match source_map_url {
                Some(u) => Some(u@),
                None => None,
            },
            r.spec_source_url() == opt_view(source_url),
            r.spec_source_mapping_url() == opt_view(source_mapping_url),
            r.spec_cached_data_rejected() == cached_data_rejected,
    {
        ScriptInfo {
            source,
            script_id,
            resource_name: Some(filename.to_string()),
            source_map_url: match source_map_url {
                Some(u) => Some(u.to_string()),
                None => None,
            },
            source_url,
            source_mapping_url,
            cached_data_rejected,
        }
    }

    /// A script compiled from a bare scope: named "<scope>", with no source
    /// map URL and no cached data.
    pub fn from_scope(
        source: String,
        script_id: i32,
        source_url: Option<String>,
        source_mapping_url: Option<String>,
    ) -> (r: Self)
        ensures
            r.spec_source() == source@,
            r.spec_script_id() == script_id,
            r.spec_resource_name() == Some(scope_resource_name()),
            r.spec_source_map_url() is None,
            r.spec_source_url() == opt_view(source_url),
            r.spec_source_mapping_url() == opt_view(source_mapping_url),
            !r.spec_cached_data_rejected(),
    {
        ScriptInfo {
            source,
            script_id,
            resource_name: Some(String::from_str("<scope>")),
            source_map_url: None,
            source_url,
            source_mapping_url,
            cached_data_rejected: false,
        }
    }

    /// The source text.
    pub fn source(&self) -> (r: String)
        ensures
            r@ == self.spec_source(),
    {
        self.source.clone()
    }

    /// The script id.
    pub fn script_id(&self) -> (r: i32)
        ensures
            r == self.spec_script_id(),
    {
        self.script_id
    }

    /// The resource name given at compile time.
    pub fn resource_name(&self) -> (r: Option<String>)
        ensures
            opt_view(r) == self.spec_resource_name(),
    {
        clone_opt_string(&self.resource_name)
    }

    /// The source map URL given at compile time.
    pub fn source_map_url(&self) -> (r: Option<String>)
        ensures
            opt_view(r) == self.spec_source_map_url(),
    {
        clone_opt_string(&self.source_map_url)
    }

    /// The source URL the engine found.
    pub fn source_url(&self) -> (r: Option<String>)
        ensures
            opt_view(r) == self.spec_source_url(),
    {
        clone_opt_string(&self.source_url)
    }

    /// The source mapping URL the engine found.
    pub fn source_mapping_url(&self) -> (r: Option<String>)
        ensures
            opt_view(r) == self.spec_source_mapping_url(),
    {
        clone_opt_string(&self.source_mapping_url)
    }

    /// Whether the engine rejected the cached data given.
    pub fn cached_data_rejected(&self) -> (r: bool)
        ensures
            r == self.spec_cached_data_rejected(),
    {
        self.cached_data_rejected
    }
}

/// How a failed run is reported.
#[derive(Clone, Copy, Debug, PartialEq, Eq, Structural)]
pub enum RunFailure {
    /// The watchdog terminated the run: the termination is cancelled and a
    /// timeout is reported.
    TimedOut,
    /// The script threw: its exception is reported.
    Threw,
}

/// How a failed run is reported: as a timeout when the engine was
/// terminated, else as the exception thrown.
pub fn run_failure(has_terminated: bool) -> (r: RunFailure)
    ensures
        r == (if has_terminated {
            RunFailure::TimedOut
        } else {
            RunFailure::Threw
        }),
{
    if has_terminated {
        RunFailure::TimedOut
    } else {
        RunFailure::Threw
    }
}

/// The parameter names given to `compile_function`, as read from Python.
pub enum ParameterNames {
    /// No parameter names were given.
    Missing,
    /// A sequence of strings.
    Names(Vec<String>),
    /// Something that is not a sequence of strings.
    NotStrings,
}

/// The parameter names of `compile_function` were not a sequence of str.
#[derive(Clone, Copy, Debug, PartialEq, Eq, Structural)]
pub struct BadParameterNames;

impl BadParameterNames {
    /// The error's message.
    pub fn message(self) -> (r: &'static str)
        ensures
            r@ == "compile_function() arguments must be a sequence of str."@,
    {
        "compile_function() arguments must be a sequence of str."
    }
}

/// The parameter names of a function to compile: none when none were given,
/// the strings given, or an error for anything else.  The check comes before
/// anything else `compile_function` does.
pub fn compile_function_arguments(given: ParameterNames) -> (r: Result<Vec<String>, BadParameterNames>)
    ensures
        match given {
            ParameterNames::Missing => r matches Ok(v) && v@.len() == 0,
            ParameterNames::Names(names) => r == Ok::<Vec<String>, BadParameterNames>(names),
            ParameterNames::NotStrings => r == Err::<Vec<String>, BadParameterNames>(BadParameterNames),
        },
{
    match given {
        ParameterNames::Missing => Ok(Vec::new()),
        ParameterNames::Names(names) => Ok(names),
        ParameterNames::NotStrings => Err(BadParameterNames),
    }
}

} // verus!
