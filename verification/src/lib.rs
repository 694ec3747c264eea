//! The core of an administration console for Windows: it builds the
//! commands that query and change the system, and turns what the tools
//! write into records of a stable shape.
//!
//! Nothing here starts a process. An operation hands out an
//! [`command::Invocation`], the caller runs it and hands back an
//! [`execution::ExecutionResult`], and the operation answers with its
//! records or asks for one more run ([`flow::Step`]).
//!
//! * [`quoting`] and [`validate`] make caller-supplied text safe for a script;
//! * [`normalize`] finds and decodes the JSON in the output of a tool;
//! * [`mapper`] maps decoded records to the schema of an operation;
//! * [`fallback`] orders alternative sources and unites what they give;
//! * the remaining modules each hold the operations of one area.

pub mod text;
pub mod json;
pub mod error;
pub mod quoting;
pub mod command;
pub mod execution;
pub mod normalize;
pub mod mapper;
pub mod security;
pub mod tasks;
pub mod fallback;
pub mod flow;
pub mod validate;
pub mod shares;
pub mod lexical;
pub mod sizes;
pub mod updates;
pub mod network;
pub mod windows_service;
pub mod backup;
pub mod devices;
pub mod users;
pub mod event_viewer;
pub mod disks;
pub mod active_directory;
pub mod system;
pub mod admin;
pub mod hardware;
pub mod updater;
pub mod operations;
