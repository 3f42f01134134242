# cinema-booking

A cinema seat booking service. Films have an auditorium of rows × seats; visitors
hold a seat for a limited time (Redis), then check out, which confirms the hold and
records a durable booking (SQLite). Mutating API routes need a Trailbase-issued JWT
(`Authorization: Bearer …` or the `tb_access_token` session cookie); movie writes need
an admin token.

## Layout

* `src/` — the library, verified with Verus. Every public function carries a
  `requires`/`ensures` contract over mathematical models (`Seq`, `Map`, spec
  functions), and the properties that span several calls are stated as public proof
  functions (`lemma_*`).
  * `seat_layout` — row-major seat numbering and its inverse.
  * `seat_states` — merging bookings and holds into per-seat states; the seat-grid
    HTML fragment with escaping.
  * `store_memory`, `store_adapter_memory` — in-memory booking and hold stores with
    single-winner seat rules.
  * `store_adapter_redis` — Redis key layout and the decisions around `SET NX EX`,
    the confirm script and key listing.
  * `auth`, `middlewares`, `trailbase` — principals, token extraction from headers and
    cookies, the admin gate, and claims-to-principal rules.
  * `db` — entities, changeset validation, movie slugs.
  * `error`, `views`, `controllers`, `templates` — HTTP statuses, redirects, banners,
    stream plans and request payloads.
  * `text`, `uuids` — character-level helpers and random identifiers.
* `tests/` — executable tests of the library.
* `app/` — the web server: axum routes and handlers, SQLite queries, Redis round trips,
  JWT decoding and the Trailbase HTTP proxies. It performs the I/O and asks the
  library for every decision.

## Configuration (app)

`APP_DATABASE__URL`, `APP_SERVER__IP`, `APP_SERVER__PORT`, `APP_REDIS__URL`,
`APP_REDIS__KEY_PREFIX`, `APP_REDIS__HOLD_TTL_SECONDS`, `APP_TRAILBASE__BASE_URL`,
`APP_TRAILBASE__JWT_PUBLIC_KEY_PATH` or `APP_TRAILBASE__JWT_PUBLIC_KEY_PEM`, and
`APP_ENVIRONMENT` (`development`, `production`, `test`; `test` accepts the fixed
bearer token `test-bearer-token`).
