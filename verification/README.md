# classchat

The domain logic of a class chat service (teachers and parents, chat rooms,
messages), verified with Verus.

- `src/` is the verified library: users and roles (`user`), rooms (`room`),
  messages (`message`), turning stored rows into values (`records`), the
  per-connection message relay as a state machine (`relay`), the server's
  settings and addresses (`config`), and text helpers (`text`).
- `app/` is the server around it: HTTP and WebSocket handlers (axum), SQLite
  through sqlx, certificates through rustls-acme, JSON through serde.
- `tests/` runs the library on concrete values.
