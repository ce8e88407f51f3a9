# authful

The logic of a small authentication service (accounts, password login, server-side
sessions), verified with Verus.

- `src/` is the verified library. `services` prepares each database write or read and
  turns its outcome into the operation's result; `utils` hashes session tokens
  (SHA-256, lowercase hex); `transport` decides which error a client sees and its HTTP
  status; `config` reads the hashing settings; `models` holds the rows.
- `app/` is the HTTP server (actix-web), the Postgres access (diesel) and the argon2
  password hashing (argonautica); it runs the library's steps against the database.
- `tests/` runs the library on concrete values.
