# nexus_chat

The rules of a real-time chat service (servers, rooms, messages, reactions,
bots and their owners), written in Verus: every request is a function on an
in-memory database `ChatDb`, and its contract states, over the database's
view, when it is refused and what it changes.

Layout:

- `src/tables.rs`, `src/db.rs`: the rows of each table, their views, and the
  database with its invariant (unique primary keys in every keyed table).
- `src/store.rs`, `src/lookups.rs`, `src/membership.rs`, `src/permissions.rs`:
  table operations, membership lookups, and the permission bitfield.
- `src/reducers/`: one module per area of requests.
- `src/text.rs`, `src/id_list.rs`, `src/json.rs`, `src/unicode.rs`: text,
  id lists, the JSON values the bulk requests read, and the two calls into
  `std` whose results the contracts name.
- `src/laws.rs`, `src/dm_cleanup_law.rs`, `src/dm_repeat_law.rs`,
  `src/swarm_repeat_law.rs`: properties that span several requests, proved.
- `tests/`: tests on concrete values.
- `app/`: the host side, which parses JSON text with serde_json and passes
  floating-point settings as bit patterns.
