# xx_session_management

Session management for a Wayland compositor. Clients group their windows into sessions. The
compositor remembers where each window of a session was, and puts it there again when a client
restores it.

`src/` is the verified library.

- `manager` serves the requests of the protocol and holds all sessions.
- `session` and `toplevel` are what is remembered of a session and of a window.
- `model` says what the sessions are as a mathematical map, and what each request does to it.
- `laws` states what holds of the library as a whole.
- `session_id` draws random session IDs, and keeps a ghost account of them.
- `storage` decides where the sessions are saved, and what to do with what was read from there.
- `schedule` says when sessions are updated and saved.
- `id_map` is a map with string keys, `binary64` a double-precision number held as its bits.

`app/` connects it to Wayland, to the event loop and to the file system.
