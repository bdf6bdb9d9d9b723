# surreal_chat

A chat backend on SurrealDB, split into a verified library and the services
around it.

- `src/` is the library, written in Verus and verified: the message and
  record types with their conversions, how record identifiers are written
  (`table:key`) and read back, which client actions become stored events,
  what a client that joined a chat is told, what the event processor stores,
  the step function of a client's websocket session, and the registry of
  connected users.
- `app/` holds the three services (`api-warp`, `surreal-events`,
  `warp-chat`) as one program: database, kafka and websocket I/O, command
  line parsing, and the serde forms of the library's types.
- `tests/` exercises the library on concrete values.
