# netvisor

The domain logic of a network discovery and inventory service, verified
with Verus.

- `src/` is the verified library: interface classification and the subnet
  type catalogue, the subnet duplicate rules and subnet deletion, the
  stored entities and their columns, the OIDC sign-in flows as state
  machines, the decisions of the request handlers and of the daemon's
  discovery endpoints. `src/laws.rs` holds the properties that span
  several operations.
- `tests/` runs the library on concrete values.
- `app/` is the plumbing that Verus does not see: the command line, the
  serialized forms, database rows, and the async drivers that perform what
  the library's state machines ask for.

Calls into outside crates (`uuid`, `chrono`, `url`, `urlencoding`,
`email_address`) and into `std` where vstd has no specification go through
a small set of trusted wrappers, each with a doc comment that says what
its contract claims.
