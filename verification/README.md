# ratings

The backend of the snap ratings service: users register with a client hash, vote on
snaps, and the service answers each snap's rating band and charts of the best-rated snaps.

- `src/` is the library, verified with Verus. It holds the rules of the service: the
  exact Wilson-score banding of vote counts (`features::common`), chart ranking
  (`features::chart`), request validation and reply assembly for the gRPC services
  (`grpc`, `features::*::interface`), token handling (`jwt`, `utils::jwt`), request
  authorization (`middleware`), the coordination of category updates
  (`ratings::categories`) and configuration values (`utils`).
- `app/` is the program around it: configuration loading, the database, HTTP calls to
  the snap store, the tonic/axum servers and the floating-point values sent on the wire.
- `tests/` runs the library on concrete values.

Notes on the design:

- The updates of snap categories in progress (`ratings::categories::CategoryUpdates`) are
  kept in a `Vec` of (snap id, notifier) pairs with the invariant that no snap id occurs
  twice. std's `HashMap` keyed by `String` has no specification that lets Verus reason
  about what a lookup returns, so the map is modelled by the vector and its view.
- Adjusted ratios are kept exact, as vote counts, and compared with fractions in integer
  arithmetic; app/ computes the floating-point value only to send it on the wire.
- The tonic service traits are generated from the protocol's `.proto` definitions, which
  this crate does not hold; the bodies of the gRPC calls stand in `app/handlers.rs`, and
  `app/main.rs` serves the admin endpoints.
