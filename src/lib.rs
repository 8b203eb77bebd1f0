//! A typed, filterable publish/subscribe bus for chat events, with the
//! streaming token protocol and the actors (script tool, inference adapter,
//! transcript view) that talk over it.

pub mod message;
pub mod im_channel;
pub mod tool_env;
pub mod local_llm;
pub mod presentation;
pub mod script_hook;
pub mod host;
pub mod rhai_env;
pub mod lua_env;
pub mod debug_tool;
pub mod config;
