//! Fleet configuration: every downstream MCP server that dangler can front,
//! and where the configuration file is found.

use crate::table::Table;
use vstd::prelude::*;

verus! {

/// The file that configures the fleet where none is named.
pub const CONFIG_FILE: &'static str = "dangler.toml";

/// The whole configuration.
#[derive(Debug)]
pub struct Config {
    /// Reap a warm child after this many seconds unused (default 600; 0 = never).
    /// Per-server [`ServerSpec::idle_timeout_secs`] overrides this.
    pub idle_timeout_secs: Option<u64>,
    /// The downstream fleet, keyed by the server name used in every meta-tool.
    pub servers: Table<ServerSpec>,
}

/// How to launch one downstream MCP server (stdio child process).
#[derive(Debug)]
pub struct ServerSpec {
    /// Executable to spawn (e.g. `npx`, `wsl`, an absolute binary path).
    pub command: String,
    /// Arguments passed to `command`.
    pub args: Vec<String>,
    /// Extra environment for the child. Remember `WSLENV` when bridging into WSL.
    pub env: Table<String>,
    /// Working directory for the child; inherits dangler's when unset.
    pub cwd: Option<String>,
    /// Per-server idle reap override (seconds; 0 = never reap this server).
    pub idle_timeout_secs: Option<u64>,
    /// Which account/identity this server acts as (e.g. "tecnocratica",
    /// "personal"). Surfaced in list_servers and search_tools so a caller
    /// knows which hat a tool wears *before* invoking it.
    pub identity: Option<String>,
    /// How to provision this server. Shown in list_servers and appended to
    /// spawn failures so an unprovisioned server explains itself.
    pub setup_hint: Option<String>,
}

/// Where the configuration is read from.
#[derive(Debug)]
pub enum ConfigPath<P> {
    /// The path that was given.
    Given(P),
    /// The file of this name in the working directory.
    File(&'static str),
}

impl Config {
    /// `DANGLER_CONFIG` where it is set, else `./dangler.toml`.
    pub fn default_path<P>(dangler_config: Option<P>) -> (r: ConfigPath<P>)
        ensures
            match dangler_config {
                Some(p) => r == ConfigPath::Given(p),
                None => r matches ConfigPath::File(f) && f@ == "dangler.toml"@,
            },
    {
        match dangler_config {
            Some(p) => ConfigPath::Given(p),
            None => ConfigPath::File(CONFIG_FILE),
        }
    }
}

} // verus!
