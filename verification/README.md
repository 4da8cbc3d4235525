# codex_session

The messages of an app server and of its multiplayer sessions, verified with Verus.

* `src/` is the library. Every function has a contract over a mathematical model: JSON
  values as a tree, texts as sequences of characters, a transcript as a sequence of lines.
  * `jsonrpc_lite` reads and writes the JSON-RPC messages; `jsonrpc_laws` proves, among
    others, that reading gives back what was written, except that an optional payload
    that is `null` reads back as absent, and that a request with the members of a
    response is refused.
  * `wire` refuses a record in which a field occurs twice, before its text becomes a
    value.
  * `session` holds who may join a session and what its transcript is; `history`, `names`,
    `transcript` and `page` are its parts.
  * `messages` is what travels between the session and a participant, and `socket` decides
    what is done on a participant's connection.
  * `json`, `record`, `text`, `quoting` and `decimal` are the common ground.
* `app/` binds the library to the network: the HTTP and WebSocket server, and the message
  types with the derives that schemas are made from.
* `tests/` runs the library.

What the proofs rest on, beyond Verus itself, is declared in `json` (calls into
`serde_json`), `transcript` (the spans of a `ratatui` line), `session` (random `uuid`
tokens) and `text` (`str::trim`).
