# amux

A multiplexer for ACP sessions: many subscribers share one agent process.

- `src/` is the library. It decides what is sent to whom, and every function of
  it is verified with Verus. `session/` holds one session (the frames of
  subscribers and of the agent, turns, the prompt queue, the replay log), `room/`
  the log in segments and how history is streamed to those who attach,
  `protocol/` the messages, `server.rs`, `cli.rs` and `agent/` the rules at the
  edges. `json.rs`, `text.rs` and `session/clock.rs` hold what other crates and
  the standard library are trusted for.
- `app/` is the program: WebSocket and HTTP server, agent processes, command
  line. Installed under the name `mock_acp` it is an agent to try the mux on.
- `tests/` are the library's tests.

What holds of a session as a whole stands in `session/sound.rs` (what every event
keeps), `session/routing.rs` (how a request finds its answer), `session/life.rs`
(how it waits and ends) and `session/laws.rs` (how its other operations relate to
each other).
