# dangler

An MCP pre-loader, verified with Verus. Dangler sits between an MCP client and a
fleet of MCP servers, and advertises what is available without paying for it
until it is used: five meta-tools instead of every server's schemas, and servers
that are spawned on first touch and reaped when idle.

Two first-party servers of such a fleet come with it: `dangler-godaddy` (domains
and DNS over the GoDaddy REST APIs) and `dangler-ytdl` (local video archiving
over a bundled yt-dlp toolkit).

## Layout

- `src/` is the library: every decision, with its contract, proved. It performs
  no I/O. A request is a step function from what happened to what is to be done.
- `app/` is the program around it: processes, HTTP, files, the environment, and
  the MCP transport.
- `tests/` runs the library on concrete values.

## What is proved

- No reap pass takes a server that a request is using, not even where the server
  was dropped and spawned again under an earlier request; a reap pass takes
  exactly the idle ones; what is reaped or dropped stays searchable and is
  spawned again on the next request (`src/fleet_laws.rs`).
- A downstream tool gets just what the request says, and its answer is relayed
  as it came.
- A search finds exactly the tools whose name or description holds the query,
  in whatever case, and every configured server is either indexed or reported.
- Schemas survive a restart through the cache file, as long as none of them is
  nested deeper than `serde_json` reads (`Fleet::cache_is_shallow` tells).
- In read-only mode the GoDaddy server sends nothing but GET, and the archiving
  server runs nothing that writes to disk; reading is not affected.
- The tools that each server advertises are exactly those it answers to.

## What is trusted

The functions marked `#[verifier::external_body]`: JSON text as `serde_json`
reads and writes it, tools as `rmcp` reads them, HTTP methods and status lines
as `reqwest` knows them, and the standard library's change of case, lossy
decoding and joining of paths. Each says in its doc comment what is claimed of it.
