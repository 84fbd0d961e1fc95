//! Verified core of an embedding layer for a JavaScript engine.
use vstd::prelude::*;

pub mod awaitable;
pub mod builder;
pub mod console;
pub mod convert;
pub mod error;
pub mod event_loop;
pub mod host_api;
pub mod inspector;
pub mod kind;
pub mod modules;
pub mod operator;
pub mod profile;
pub mod property;
pub mod rejection;
pub mod runtime;
pub mod script;
pub mod settings;
pub mod snapshot;
pub mod templates;
pub mod text;
pub mod typed_array;
pub mod value;
pub mod wasm;

verus! {

} // verus!
