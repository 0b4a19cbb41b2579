//! A safety layer between application code and a native, session-oriented
//! procedural engine that is reached through a flat C interface.
//!
//! The library holds the rules of that interface and none of its calls: each
//! operation is split into a function that builds the description of a native
//! call from checked arguments, and a function that turns what the engine
//! answered into a typed value or a typed error. Whoever links the engine
//! performs the calls in between.

pub mod array;
pub mod asset;
pub mod attribute;
pub mod errors;
pub mod geometry;
pub mod marshal;
pub mod node;
pub mod parameter;
pub mod session;
pub mod stringhandle;
pub mod text;
