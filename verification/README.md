# backend

The record logic of a small shop backend that keeps articles, customers and
orders in SQLite, written in Verus and verified.

- `src/text.rs`: decimal numerals, SQL placeholders, separated lists, string
  comparison.
- `src/sql.rs`: SQL values, statements and batches, typed reading of row
  columns, the library's errors.
- `src/record.rs`: the `Insertable` trait (a record type stored as one row of
  its table) and the statements and plans that select, insert, update and
  delete such records, with the laws that tie statement parameters to columns.
- `src/model.rs`: articles, customers, order items, orders, order types and
  statuses; their rows and how they read back.
- `src/run.rs`: the step-by-step run of a plan: prepare each batch, execute each
  parameter row, stop at the first failure; with the law that a run without
  failure takes exactly the plan's steps in order.
- `app/`: the SQLite and HTTP edge: it runs the planned statements with
  rusqlite, turns result rows into `SqlValue`s, and holds the serde / strum /
  utoipa copies of the records and the statistics types.
