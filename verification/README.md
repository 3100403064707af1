# parkeerservice

A client for a municipal parking-permit web service: log in, list the
account's permits and parking sessions, start and stop sessions.

The library (`src/`) is written in Verus and verified. It holds the
decisions; the program in `app/` does the network traffic.

- `client`: permits, credentials, reading the login and customer pages.
- `session`: reading sessions, building the list/start/stop requests.
- `login`: the login conversation as a state machine (`Login::step`).
- `json`, `request`, `text`, `time`, `pattern`: the values these work on,
  and the calls into `serde_json`, `chrono`, `regex` and `urlencoding`.
- `laws`: properties proved across operations.

`app/` holds the command-line program: argument parsing, the HTTP client
(and the JSON encoding of request bodies), and the loop that drives
`Login`.
