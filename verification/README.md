# shop_backend

The request-handling rules of a small shop service (users, products, carts)
that stores its records in MongoDB and serves HTTP with actix-web.

- `src/` is the library, verified with Verus. Each handler is split at the
  points where it waits on the database; the functions there decide, from the
  request and the database's answer, what happens next and which reply goes
  out. `src/controllers/` holds the handlers' rules, `src/models/` the stored
  records, `src/header.rs` the reading of the `Authorization` header,
  `src/reply.rs` the replies.
- `app/` is the server: routes, database calls, JSON and BSON encoding, token
  checking, and the conversion between the library's records and
  their serialisable copies.
- `tests/` runs the library on concrete requests.
