# digging

Verified core of a monitoring server for SimplifyDigging ComputerCraft
turtles. The library (`src/`, checked by Verus) holds:

- `models::simplify_digging`: the packets turtles send and the values they carry
  (facing as a number 0 to 3, fuel as an amount or `unlimited`);
- `websockets::actor`: one connection's state and how packets and stream events
  change it;
- `websockets`: the registry of sessions, answers to queries of all turtles,
  and the removal of sessions whose keepalive is too old;
- `websockets::clock`: instants and elapsed-time comparison;
- `errors`: the application error and the HTTP status, code and message it is
  answered with;
- `models::responses`: the JSON envelope of API answers;
- `routes`: what the REST endpoints and the WebSocket upgrade answer.

`app/` is the server around it: axum routes, kameo actors, the sockudo-ws
stream, serde forms of the wire types, and `main`.
