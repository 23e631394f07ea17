//! A verified value-binding core for an embedded QuickJS engine.
//!
//! The engine hands out 64-bit tagged words.  This crate holds everything
//! about them that can be decided without the engine: how a word is
//! classified, which words carry a unit of the engine's reference count and
//! how ownership of such a unit moves, how a pending exception becomes a host
//! error, and what a native function hands back to the engine.  The calls into
//! the engine itself are made by the embedding program, which passes the
//! engine's answers in as plain values.

pub mod bridge;
pub mod builtins;
pub mod capture;
pub mod context;
pub mod engine;
pub mod error;
pub mod float;
pub mod primitive;
pub mod refcount;
pub mod runtime;
pub mod tag;
pub mod text;
pub mod trampoline;
pub mod value;

pub use crate::context::Context;
pub use crate::error::{Error, JsException};
pub use crate::primitive::Primitive;
pub use crate::runtime::Runtime;
pub use crate::tag::ValueKind;
pub use crate::value::Value;
