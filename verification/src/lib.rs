//! The verified core of an MCP endpoint that lives inside the Godot editor
//! and inside a running Godot game.

pub mod chat;
pub mod codec;
pub mod editor;
pub mod gd_util;
pub mod json;
pub mod laws;
pub mod ops;
pub mod runtime;
pub mod server;
pub mod text;
pub mod timeline;
pub mod tools;
