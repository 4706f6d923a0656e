# Godot Agent

An MCP server that lives inside the Godot editor and inside a running game, so
that an AI assistant can inspect and drive both over HTTP.

`src/` is the library: what a request means, what is answered, which operation
a tool call asks for, how simulated input is scheduled, how scene trees and
script values become JSON, and how the lines of a chat process are read. All of
it is verified with Verus.

| Module | What it holds |
|---|---|
| `text` | comparison, trimming, lines, ports, the integers that number texts denote |
| `json`, `codec` | JSON values and their text; `serde_json` reads and writes |
| `tools`, `ops` | tool descriptions; the operations of the editor |
| `server` | JSON-RPC over HTTP: from a request to a reply or a queued job |
| `editor` | from an operation to what the editor has to do and what is answered |
| `gd_util` | nodes, script values and scripts |
| `timeline`, `runtime` | input sequences; the state of the game's side |
| `chat` | the protocol of the chat process, and where its program is |

`app/` is the GDExtension around it: the HTTP thread, the editor plugin, which
also registers the game's autoload, that autoload, the chat process, and
everything that is asked of the engine. Input is advanced once per frame.
Times are floating-point numbers there; the library keeps the gaps in whole
milliseconds and carries the waits that a call asks for as they are.

Trusted, and marked so in the source: what `serde_json` reads and writes
(`codec`), its numbers (`json`), and two functions of the standard library on
characters and strings (`text`).

Both endpoints bind to 127.0.0.1 only: port 6010 for the editor
(`GODOT_MCP_HTTP_PORT`), port 6011 for the game (`GODOT_AGENT_GAME_PORT`).
Scripts that a client sends are run with the full rights of the process, so do
not expose the ports.
