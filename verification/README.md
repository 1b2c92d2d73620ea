# rjss

Authentication toolkit for JSS, a Frappe site, with its logic verified by Verus.

* `src/auth` — the authentication service: settings (`AUTH_*` variables and a
  builder), session cookies, sessions with lifetimes and idle deadlines, the stores,
  the login/logout manager, and what the C interface makes of its callbacks' answers.
* `src/gateway.rs` — the HTTP gateway's answers to `/login`, `/check`, `/logout` and
  `/proxy/..`, its settings, and upstream logins.
* `src/client` — the JSS client: URL handling, request plans and retry decisions, the
  login flow (login status and reply, CSRF token, logged-in user, site name and role
  checks, and the desk page's boot object), the state
  kept between requests, and the paths, forms and bodies of its API methods.
* `src/text.rs`, `src/json.rs`, `src/keyed.rs` — character-level text handling, JSON
  text as `serde_json` writes it, and small string-keyed tables.
* `app/` — the programs around the library: the actix-web gateway, the asynchronous
  client, the `cli-auth` login check, and the C interface.

`src/` is verified with `verus`; `tests/` exercises the library with its real
dependencies.
