# todo_api

A small to-do web service: a PostgreSQL table of to-do items served over HTTP,
configured from the environment.

- `src/` is the library, checked by Verus: reading settings from a snapshot of
  the environment (`env`, `config`), the text primitives they use (`text`), the
  paging parameters of the index (`query_params`), the SQL of the index built
  with sea-query (`sql`, `models`) and the route bodies (`routes`).
- `app/` is the service around it: loading `.env`, logging, the database pool,
  the axum routes and the OpenAPI document.
- `tests/` exercises the library.
