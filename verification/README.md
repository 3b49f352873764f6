# gula_db_core

The storage core of a chat client: threads, messages and their versions,
providers and their model catalogues, prompts, prompt apps, MCP servers and
their OAuth tokens, memories, usage records, an image gallery cache and a
full-text search index, all kept in one SQLite database and exposed to
JavaScript through N-API.

## Layout

- `src/` is the verified library (Verus). It holds the decisions the store
  makes, each with a contract proved by Verus:
  - `text`, `json`: strings and a JSON value model with proved
    insert/get/remove laws;
  - `types`: the records and inputs that cross the N-API boundary;
  - `schema`: the schema text, the column additions and the bookkeeping of
    the one-time data migrations;
  - `migrations`, `dedupe`: the provider model-list rewrites and the
    removal of duplicate predefined providers;
  - `thread_view`, `search`, `records_json`: the active path of a thread
    with its version metadata, search ranking, and the JSON rows handed out;
  - `field_updates`, `oauth`, `usage`, `memory`, `gallery`, `store`: which
    columns an update touches, how OAuth tokens are stored, usage totals
    and statistics queries, memory statistics, gallery cache entries, and
    the smaller rules of the store;
  - `handle`: the open/closed state of a database handle.
- `app/` is ordinary Rust around the library: the N-API classes, the
  SQLite calls through rusqlite, and the conversions between `serde_json`
  values and the library's JSON model.
- `tests/` runs the library on concrete values.
