# orikou_app

The application layer of a fan site for movie clips, episodes and videos,
written in Verus.

- `src/` is the verified library: the site configuration, the errors that the
  server reports and the client reads (with the HTTP status of each), the
  decisions of the query handlers (which listing a query string and JSON body
  ask for, or why they are refused), the requests that the browser client
  builds, how it reads answers, and the page that server-side rendering
  serves. `src/protocol.rs` states properties of the API as a whole.
- `app/` is the server and client around it: axum handlers and routes, the
  use cases that call the storage layer, the reqwest client, serde copies of
  the library types, and the binary's `main`. It builds on the site's
  `domain`, `infrastructure` and `presentation` crates.
- `tests/` exercises the library on concrete values.
