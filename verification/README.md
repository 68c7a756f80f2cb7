# rdf_callback

Parses Turtle and TriG documents with oxttl and hands every quad, in order, to
a C-style triple handler as plain strings and term-type codes (0 IRI, 1 blank
node, 2 typed literal, 3 language-tagged literal); also a TriG serializer.

- `src/` — the library, verified with Verus:
  `rdf` (plain quad model), `callhook` (handler arguments, NUL checks, status),
  `terms` (oxrdf types and their conversion), `ttlparser` / `trigparser`
  (parser configuration and oxttl calls), `parse` (parsing and delivery with
  status codes), `trigserializer` (serializer state and blank-node table).
- `app/` — the C interface (`extern "C"` functions, raw pointers, C strings).
- `tests/` — tests of the library.
