# cadbase_front

The decision logic of the CADBase web front end, verified with Verus.

Each page or fragment of the front end is a state machine in `src/`: a
state struct, the messages it reacts to (user input and decoded server
replies), and the actions a transition asks for (requests to send, routes to
open, messages to handle next). Every `update` is specified by an open spec
function `next` (or similar) that fixes the new state and the actions, and
laws about the pages are proved as public proof functions beside them.

- `src/` — the verified library (one module per page or fragment, plus
  `common` and `route` for shared values and route fragments).
- `tests/` — tests on concrete values.
- `app/` — a small command-line driver that decodes a server reply with
  serde, runs the API key manager on it and prints the key table.
