# rincon

A client library for the ArangoDB REST API, written in Verus: the request
methods with their operations, paths, parameters and bodies; the entities the
server sends and receives; the rules by which handles, keys and identifiers
are read and written; the optimizer rules of AQL; the address of a request,
percent-encoded; and the state of reading a cursor batch by batch. Each
function states what it does in its contract, and Verus proves it.

- `src/` is the verified library.
- `app/` holds what the library cannot: the serde forms of its entities, the
  environment lookup for a data source, and the loop that fetches cursor
  batches.
- `tests/` runs the library on concrete values.
