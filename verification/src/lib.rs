//! dangler, an MCP pre-loader: a fleet of MCP servers behind five meta-tools,
//! and two first-party servers of that fleet.
//!
//! - [`fleet`]: which servers are warm, which tools are known, and what a load,
//!   a call, a search or a reap pass does to them; [`fleet_laws`] proves what
//!   holds whatever is done.
//! - [`server`]: the meta-tools over the fleet.
//! - [`godaddy`] and [`ytdl`]: the two extensions.
//! - [`request_laws`], [`search_laws`], [`schema_laws`], [`operation_laws`] and
//!   the laws of the extensions prove what the operations are for, told by what
//!   goes in and what comes out; [`text_laws`], [`json_laws`] and [`view_laws`]
//!   prove it of what they are told in.
//! - [`config`], [`tool`], [`mcp`], [`json`], [`table`], [`text`]: what these
//!   are made of.
//!
//! Whatever waits, talks to a process or a network, or touches the disk is left
//! to the caller. The library says what to do next and is told what happened.

pub mod config;
pub mod fleet;
pub mod fleet_laws;
pub mod godaddy;
pub mod json;
pub mod json_laws;
pub mod mcp;
pub mod operation_laws;
pub mod request_laws;
pub mod schema_laws;
pub mod search_laws;
pub mod server;
pub mod table;
pub mod text;
pub mod text_laws;
pub mod tool;
pub mod view_laws;
pub mod ytdl;
