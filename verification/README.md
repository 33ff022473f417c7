# blog-server

A small HTTP server that counts the likes of blog posts, kept in SQLite.

- `src/` is the verified library (Verus): the error model and how errors are
  answered (`errors`), the protocol that records a like against the posts
  table and reads posts back (`posts`), the older likes-table counter
  (`like_handler`), and the plain records (`models`, `settings`). The
  database itself is driven from outside the library; `posts` and
  `like_handler` state, as proof functions, what the protocols give against
  a table keyed by id.
- `app/` is the program: argument parsing, tracing, the connection pool and
  migrations, the SQL requests, the HTTP endpoints, and the JSON forms.
- `tests/` runs the library on concrete values.
