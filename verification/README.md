# senddb_cache

The verified core of a caching proxy for SendDB that answers whether a level
has been sent.

- `src/` is the library, checked by Verus: reading level identifiers and
  settings (`text`, `config`), the two caches (`cache`, over the `dashmap`
  collections declared in `dash`), the order in which a check consults the
  caches, the database and the upstream service (`check`, `upstream`), the
  replies (`reply`), the websocket requests (`ws`), statistics (`stats`), the
  health and root answers (`health`), and the laws that hold across them
  (`laws`).
- `app/` is the HTTP server around it: configuration from the environment,
  the SQLite database, the upstream requests, the routes and the JSON bodies.
- `tests/` runs the library on concrete values.
