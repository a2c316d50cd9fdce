# gaia_mcp

The decisions of two Model Context Protocol servers, verified with Verus:

- a travel planner that asks a maps service for geocodes and driving routes;
- a search server that answers a query from a Qdrant vector database, from a TiDB
  full-text index, or from both.

`src/` is the library. It makes the requests, reads the replies and decides what
comes next; it sends nothing itself. A call that needs more than one request is a
sequence of steps: the library hands out a piece of work, and goes on from what
came of it.

- `text`, `json`, `http`, `error`: the values that the servers deal in
- `travel`: the travel planner
- `config`, `tool`: how a search server is set up and presents itself
- `service`: calls of a model service for embeddings and keywords
- `points`, `tidb`: the two indexes
- `search`: the search itself

`app/` is what surrounds the library: the HTTP and database clients, the protocol
servers, and a small command line client. `tests/` runs the library.
