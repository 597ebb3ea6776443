# tower_router

The response side of a router's routes. A route's response future carries,
besides the work it waits on, whether to strip the body of the response and
an `Allow` value; once the response is ready it gets `Allow` (unless it has
one) and `Content-Length` from the exact body size (unless it has one, or
the size is not known).

- `src/` is the proved library: `headers` (the `http` and `bytes` types,
  behind trusted wrappers), `decimal` (decimal text, printed by `itoa`),
  `finish` (setting the two headers), `route_future` (the route future's
  state and the finishing step), `laws` (what holds of every response).
- `app/` holds the tower plumbing: `Route`, and the futures that poll the
  inner service and hand the response to the library.
- `tests/` runs the library on concrete responses.
