# supabased

Short-lived Supabase branches for a team: a server that creates, lists and deletes branches
of configured projects on behalf of the members of a GitHub organisation, and a client for
the command line.

## Layout

- `src/` is the verified library. Every rule of the server and of the client is here: who is
  admitted and what they may do (`auth`, `login`, `secrets`, `device_sessions`, `rate_limit`),
  what is asked of GitHub and of Supabase and what their answers mean (`github`, `supabase`,
  `http`), what is kept (`db`, `tables`), the operations on branches and demo states (`service`,
  `branches`, `branch_names`, `demo`, `restore`, `runs`), the configuration (`config`, `listen`), and
  the client (`client`, `session`, `dotenv`, `tree`).
- `app/` is the ordinary Rust around it: the command line, files, the database, HTTP, gRPC and
  the programs that are run. It performs what the steps of the library ask for and hands back
  the answers.
- `tests/` runs the library with the real outside crates.

An operation that waits for somebody else, such as the creation of a branch, is a chain of
steps in the library. Each step takes the last answer and says what to ask next, or why the
request is refused. Functions whose names begin with `law_` state what holds across steps.

## Login

Users log in by GitHub's device flow. The server asks for the scope `read:org` and admits
members of one organisation. A session token is good for eight hours; a refresh token is good
for thirty days and for one use.

The server listens in plaintext on loopback alone; on any other address it needs `TLS_CERT`
and `TLS_KEY`. The client talks to `http://[::1]:50051` until it is told otherwise.
