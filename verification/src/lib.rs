//! Verified core of the GameImage wizard: the project databases, the
//! requests sent to the `gameimage-cli` backend, the decisions taken by
//! the wizard frames and the helpers on text and paths they rely on.
pub mod error;
pub mod text;
pub mod path;
pub mod common;
pub mod kv;
pub mod db;
pub mod pattern;
pub mod sort;
pub mod gameimage;
pub mod wizard;
pub mod frame;
pub mod flow;
pub mod download;
pub mod ipc;
pub mod scaling;
