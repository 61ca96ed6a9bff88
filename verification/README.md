# dbt_docs_server

The logic of a server that documents a data transformation project: it answers requests for
models, seeds, macros, metrics, saved queries, groups, exposures and nodes, searches them,
walks their lineage, and relays analytics events. The library under `src/` is verified with
Verus; `app/` is the HTTP server and the DataFusion providers around it.

A handler is split in two. A function `plan_..` checks the request and says what to query, or
with what the request is refused. A function `finish_..` makes the reply from what the queries
gave. Where queries depend on the answers to earlier ones, a small state machine says what to
ask next (`probe`, and the highlights of `search`).

- `text`, `find`, `order`, `sql`, `encoding`, `json`, `table`: texts, SQL literals, JSON, base64,
  and query results as columns of cells.
- `pagination`, `probe`, `listing`, `node_base`: what all lists and details share. `pagination`
  shows that a list read page by page gives every row once and in order.
- `models`, `seeds`, `macros`, `metrics`, `saved_queries`, `groups`, `exposures`, `nodes`,
  `files`, `lineage`, `column_lineage`, `project`, `search`, `search_sql`, `highlight`: the
  resources and the search. `ranking` shows that the sort key of a search ranks as it should.
- `analytics`, `identity`, `health`, `dist_info`, `assets`: the server itself.
- `seed_io`, `delayed_table`, `catalogs`: schemas and catalogs of tables.

Floating-point values pass through the library as the bits of their 64-bit form.
