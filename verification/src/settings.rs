//! The engine settings that Python names by string: the microtask policy,
//! memory pressure levels, garbage collection types and the handling of
//! function code in snapshots.
use vstd::prelude::*;
use crate::text::str_eq;

verus! {

/// When microtasks run.
#[derive(Clone, Copy, Debug, PartialEq, Eq, Structural)]
pub enum MicrotasksPolicy {
    Auto,
    Explicit,
}

/// The microtask policy a name stands for.
pub open spec fn microtasks_policy_named(name: Seq<char>) -> Option<MicrotasksPolicy> {
    if name == "auto"@ {
        Some(MicrotasksPolicy::Auto)
    } else if name == "explicit"@ {
        Some(MicrotasksPolicy::Explicit)
    } else {
        None
    }
}

/// A name that stands for no setting; the field says which setting was read.
#[derive(Clone, Copy, Debug, PartialEq, Eq, Structural)]
pub enum UnknownSetting {
    MicrotasksPolicy,
    MemoryPressureLevel,
    GarbageCollectionType,
    FunctionCodeHandling,
}

/// Parses "auto" or "explicit".
pub fn parse_microtasks_policy(policy: &str) -> (r: Result<MicrotasksPolicy, UnknownSetting>)
    ensures
        match microtasks_policy_named(policy@) {
            Some(p) => r == Ok::<MicrotasksPolicy, UnknownSetting>(p),
            None => r == Err::<MicrotasksPolicy, UnknownSetting>(UnknownSetting::MicrotasksPolicy),
        },
{
    if str_eq(policy, "auto") {
        Ok(MicrotasksPolicy::Auto)
    } else if str_eq(policy, "explicit") {
        Ok(MicrotasksPolicy::Explicit)
    } else {
        Err(UnknownSetting::MicrotasksPolicy)
    }
}

/// How much memory pressure the host reports.
#[derive(Clone, Copy, Debug, PartialEq, Eq, Structural)]
pub enum MemoryPressureLevel {
    NoPressure,
    Moderate,
    Critical,
}

/// The memory pressure level a name stands for.
pub open spec fn memory_pressure_named(name: Seq<char>) -> Option<MemoryPressureLevel> {
    if name == "none"@ {
        Some(MemoryPressureLevel::NoPressure)
    } else if name == "moderate"@ {
        Some(MemoryPressureLevel::Moderate)
    } else if name == "critical"@ {
        Some(MemoryPressureLevel::Critical)
    } else {
        None
    }
}

/// Parses "none", "moderate" or "critical".
pub fn parse_memory_pressure_level(level: &str) -> (r: Result<MemoryPressureLevel, UnknownSetting>)
    ensures
        match memory_pressure_named(level@) {
            Some(l) => r == Ok::<MemoryPressureLevel, UnknownSetting>(l),
            None => r == Err::<MemoryPressureLevel, UnknownSetting>(UnknownSetting::MemoryPressureLevel),
        },
{
    if str_eq(level, "none") {
        Ok(MemoryPressureLevel::NoPressure)
    } else if str_eq(level, "moderate") {
        Ok(MemoryPressureLevel::Moderate)
    } else if str_eq(level, "critical") {
        Ok(MemoryPressureLevel::Critical)
    } else {
        Err(UnknownSetting::MemoryPressureLevel)
    }
}

/// The garbage collection a test may request.
#[derive(Clone, Copy, Debug, PartialEq, Eq, Structural)]
pub enum GarbageCollectionType {
    Full,
    Minor,
}

/// The garbage collection type a name stands for.
pub open spec fn garbage_collection_named(name: Seq<char>) -> Option<GarbageCollectionType> {
    if name == "full"@ {
        Some(GarbageCollectionType::Full)
    } else if name == "minor"@ {
        Some(GarbageCollectionType::Minor)
    } else {
        None
    }
}

/// Parses "full" or "minor"; Python's default is "full".
pub fn parse_garbage_collection_type(collection_type: &str) -> (r: Result<GarbageCollectionType, UnknownSetting>)
    ensures
        match garbage_collection_named(collection_type@) {
            Some(t) => r == Ok::<GarbageCollectionType, UnknownSetting>(t),
            None => r == Err::<GarbageCollectionType, UnknownSetting>(UnknownSetting::GarbageCollectionType),
        },
{
    if str_eq(collection_type, "full") {
        Ok(GarbageCollectionType::Full)
    } else if str_eq(collection_type, "minor") {
        Ok(GarbageCollectionType::Minor)
    } else {
        Err(UnknownSetting::GarbageCollectionType)
    }
}

/// Whether compiled function code is kept in a snapshot.
#[derive(Clone, Copy, Debug, PartialEq, Eq, Structural)]
pub enum FunctionCodeHandling {
    Clear,
    Keep,
}

/// The function code handling a name stands for.
pub open spec fn function_code_handling_named(name: Seq<char>) -> Option<FunctionCodeHandling> {
    if name == "clear"@ {
        Some(FunctionCodeHandling::Clear)
    } else if name == "keep"@ {
        Some(FunctionCodeHandling::Keep)
    } else {
        None
    }
}

/// Parses "clear" or "keep"; Python's default is "clear".
pub fn parse_function_code_handling(value: &str) -> (r: Result<FunctionCodeHandling, UnknownSetting>)
    ensures
        match function_code_handling_named(value@) {
            Some(h) => r == Ok::<FunctionCodeHandling, UnknownSetting>(h),
            None => r == Err::<FunctionCodeHandling, UnknownSetting>(UnknownSetting::FunctionCodeHandling),
        },
{
    if str_eq(value, "clear") {
        Ok(FunctionCodeHandling::Clear)
    } else if str_eq(value, "keep") {
        Ok(FunctionCodeHandling::Keep)
    } else {
        Err(UnknownSetting::FunctionCodeHandling)
    }
}

} // verus!
