# api_util

The request-side rules of a puzzle hunt server, verified with Verus: which
errors a request is refused with and how they are worded, answered and logged;
what wrong answers cost; what a session says about its user; which team a
request acts for; and what the replies of the database mean.

- `src/` is the verified library.
  - `text`: numbers as text, reference numbers, the journal of log lines
  - `error`: errors, their wording, status and log lines
  - `clock`: instants in UTC
  - `penalty`: the penalties for wrong answers
  - `session`: the session of a request
  - `store`: what is asked of the database, and what its replies mean
  - `team`: the lookup of a request's team, step by step
  - `request`: requests that check themselves
- `tests/` runs the library together with the crates that it calls.
- `app/` holds the database queries and the answers over HTTP.
