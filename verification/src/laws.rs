//! What the operations do, stated over what goes in and what comes out.
//!
//! The contracts of the library equate results with spec functions. The laws
//! here say what those functions are, for every input, in terms of the fields
//! of messages and calls, the items of lists, and the texts and numbers that a
//! caller sees.

pub mod chat;
pub mod editor;
pub mod gd_util;
pub mod json;
pub mod ops;
pub mod results;
pub mod runtime;
pub mod server;
pub mod text;
pub mod timeline;
pub mod tools;
