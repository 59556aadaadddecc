# moto_core

The core of the MotoYa client (rides and errands on motocarros): what it sends
to the backend, how it reads the replies, the session it keeps, the realtime
channels it follows, and what its screens decide. The library is written in
Verus: its public functions carry contracts that Verus proves, and the
private helpers they rest on are proved with them. Two functions are taken
on trust, each a call of an outside function: `text::to_uppercase`
(`str::to_uppercase`) and the base64 encoding of an errand's photo (the
`base64` crate).

## Layout

- `src/api/requests.rs`: the checks made before a request is sent (empty
  fields, e-mail, phone, document number, plate, model year, rating) and the
  payloads they build.
- `src/api/exchange.rs`: the endpoints, and how each operation reads the
  reply to its request (status, body, the backend's error body).
- `src/api/retry.rs`: the rule of every authenticated request: one renewal of
  the token after a 401, then an expired session.
- `src/api/errors.rs`: the errors of each operation and the texts shown for
  them.
- `src/models.rs`: the backend's values, and the two realtime lists that the
  screens keep (nearby requests of a driver, the tracked ride of a
  passenger).
- `src/realtime.rs`: the Pusher protocol state of the realtime connection,
  and the decisions of the screens' polling loops.
- `src/state.rs`, `src/storage.rs`: the session and where its token is kept.
- `src/screens/`: what the screens decide (route picking, what is offered for
  each state of a ride, form messages, home sections, errand requests and
  agreed prices, the board of nearby errands, the steps of a password reset)
  and the texts they show.
- `src/json.rs`: JSON string literals, as the realtime frames and the map
  scripts embed text.
- `src/map.rs`: the popup of a map marker, with its label escaped.
- `src/text.rs`: the string functions the rest relies on.
- `app/`: the platform side: the HTTP client (reqwest), the realtime socket
  (ewebsock), the browser's token storage (web-sys), the JSON forms of the
  values (serde), the position providers and the map scripts.
- `tests/`: the tests of the library.
