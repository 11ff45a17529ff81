# Keyleash

A policy-driven secret runtime for locally launched processes: a broker
launches a child with a private packet channel on descriptor 3, the child asks
for secrets by name, and the session's allow-list decides.

- `src/` is the verified library (Verus): secret-name validation, the
  allow-list policy, the frame model and its size limits, the broker session
  as a state machine, the client's reading of replies, and the plan of
  descriptor calls that installs the child's channel.
- `app/` drives the operating system and JSON: it launches the child, runs
  the descriptor calls, moves frames over the socket with serde_json, and
  gives the library's types their serde and `Display` forms.
- `tests/` exercises the library.
