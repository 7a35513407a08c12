# todone

The backend of a todo-list service, as a verified library (`src/`) and the
HTTP server around it (`app/`).

- `src/validation.rs`, `src/user.rs`: registration rules (username 3 to 16
  ASCII letters, digits or underscores; password 8 to 32 characters), the list
  of broken rules, and the mapping of a failed insertion to a conflict.
- `src/password.rs`: Argon2 hashing with a random salt and verification.
- `src/json.rs`, `src/hex.rs`, `src/jwt.rs`: the claims of a bearer token,
  their JSON text (written and read back), HS512 signing, and the checking of
  a request's token: signature, claims and expiry.
- `src/login.rs`: the steps of a login, with a random pause before every
  rejection; unknown users and wrong passwords get the same answer (their
  timing still differs, as only known users' passwords are hashed).
- `src/todo.rs`: todo items, update requests and the column updates they run.
- `src/error.rs`: every failure with its HTTP status and message.
- `app/main.rs`: routes (axum), Postgres queries (sqlx), configuration (clap,
  dotenv), request and response bodies (serde), reading the bearer header.
