# mailcrater

A local mail catcher: an SMTP server that accepts every message sent to it,
stores it in SQLite, and serves the stored messages over an HTTP API to a web
client.

## Layout

- `src/` — the library, verified with Verus.
  - `config` — the server settings.
  - `mail` — parsing raw message bytes with `mail_parser` into plain values.
  - `message` — the message to store, made from a parsed mail.
  - `handler` — the per-session message buffer, its size limit and the
    reply at the end of each message.
  - `connection` — what the SMTP connection loop does after each read and
    each reply.
  - `json`, `ids` — address lists as JSON (`serde_json`), random ids
    (`uuid`) and timestamps (`chrono`).
  - `storage` — the rows written for a message and the values read back
    from stored rows.
  - `api` — the answers of the HTTP endpoints.
  - `text`, `ui` — decimal numbers, joined lists, URI encoding, the text
    the web client shows, and how its message list and detail view answer
    each event (next state and the request to make).
- `app/` — the server program: sockets, the `mailin` SMTP session, the
  SQLite queries (`sqlx`) and the HTTP routes (`axum`).
- `tests/` — tests of the library.
