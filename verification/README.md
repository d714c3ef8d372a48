# diem_backend

A daily check-in service: users register and log in, check in once per
calendar day in their own time zone, and see their current streak.

- `src/` is the verified core, written in Verus. Each HTTP handler is a state
  machine (`auth::register`, `auth::login`, `checkins::check_in`,
  `checkins::status`, plus `users::me` and `health::health`): the caller
  performs the I/O that an action names and feeds the outcome back as an
  event. The contracts state every transition; `streak.rs` proves the streak
  count against its definition, and the `law_*` proof functions state the
  properties that span calls.
- `app/` is the axum server that runs those machines against PostgreSQL,
  signs tokens, and carries the serde forms of the request and response types.
- `tests/` exercises the library with concrete values.
