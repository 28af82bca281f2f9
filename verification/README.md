# traggo_mcp

An MCP server for [Traggo](https://traggo.net), a tag-based time tracker.
The server exposes focused tools (time spans, timers, tags, tag value
suggestions, statistics) and talks to Traggo through its GraphQL endpoint.

## Layout

- `src/` is the verified library (Verus):
  - `text.rs`: Unicode whitespace, trimming, decimal rendering and parsing,
    substring replacement, with their proofs;
  - `error.rs`: the error type, how errors are displayed, and the redaction
    of the device token from messages;
  - `validation.rs`: checks on tool arguments (required strings, RFC 3339
    timestamps and their order, page sizes, non-negative numbers);
  - `cursor.rs`: the opaque pagination token;
  - `config.rs`: the settings read from `TRAGGO_URL`, `TRAGGO_TOKEN` and
    `TRAGGO_TIMEOUT_SECONDS`;
  - `response.rs`: interpretation of HTTP statuses and GraphQL envelopes;
  - `graphql.rs`: variables and data of the GraphQL operations;
  - `tools.rs`: the checks each tool runs before calling Traggo, and how
    Traggo's data becomes a tool result.
- `app/` is the program around it: environment, HTTP, GraphQL documents,
  serde and JSON-schema copies of the library's types, and the MCP server.
- `tests/` exercises the library on concrete values.
