# pos_terminal

The core of a point-of-sale terminal that keeps a local SQLite store in step
with a cloud service, written in Verus.

`src/` is the verified library. It decides every statement the terminal runs
against its store (the SQL text and the values bound to it, in order), the
upload and the handling of the cloud's reply during synchronization, and how
sales are read back with their lines, products and payments. Outside work
alternates with decisions in synchronization and in loading sales, so both are
state machines: the library takes the outcome of each piece of outside work
and says what to do next.

- `model`: the records (amounts as `f32` bit patterns).
- `sql`: bound values and statements.
- `sync`: the synchronization exchange, with its laws (a successful run, a
  failed step, the report of any run that succeeds).
- `sale`: recording and refunding sales, what runs after the sale row is
  inserted (or the refunded sale deleted), and the law that a refund mirrors
  the sale.
- `loader`: reading sales back, with the law of a complete listing, and which
  lookup each listing runs.
- `duplicate`: copies of records proved equal to their originals (the reply
  the cloud is sent back to confirm a synchronization is one).
- `inventory`, `lookup`, `calendar`, `config`, `text`: registration and stock,
  sign-in and searches, day boundaries, addresses, decimal text.

`app/` is the Tauri program around it: HTTP, SQLite, dialogs, serde.
