//! Command translation and session bookkeeping for a fixed command-line
//! toolchain, with the security policy that decides which tools are offered.
//!
//! The library decides and computes; it starts no process and reads no file.
//! A caller hands it plain values and carries out what it answers:
//!
//! - `config` holds the policy, `schema` the declared tools, `context` the
//!   local additions to their descriptions;
//! - `foundry` applies the policy to the schema and resolves a call of a tool
//!   into an invocation, with `command` for the tokens of the command line
//!   and `advertise` for what is shown of a tool;
//! - `sessions` keeps the records of the local node and of the REPL and says
//!   what an evaluation returns;
//! - `conversion`, `chainlist` and `tokenlist` are the tools that stand beside
//!   the toolchain, `handlers` and `server` what is offered and where a
//!   request goes;
//! - `json`, `text`, `lists`, `tool`, `request` and `locator` are what the
//!   others build on.

pub mod advertise;
pub mod chainlist;
pub mod command;
pub mod config;
pub mod context;
pub mod conversion;
pub mod foundry;
pub mod handlers;
pub mod json;
pub mod lists;
pub mod locator;
pub mod request;
pub mod schema;
pub mod server;
pub mod sessions;
pub mod text;
pub mod tokenlist;
pub mod tool;
