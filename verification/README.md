# rust_drission

Browser automation over the Chrome DevTools Protocol, with its core verified in Verus.

- `src/` is the verified library: locator parsing, launch settings and launch arguments,
  how a browser is reached, what every protocol reply means, the walk over remote node
  lists, element lookups, the network listener's state machine, the count of requests in
  flight, tab selection, cookies, storage and history. Each public function states what it
  returns in its contract; the `law_*` proof functions state properties that span calls.
- `app/` holds what Verus does not check: WebSocket connections (blocking and on tokio),
  HTTP requests, the browser process, files, timers, floating-point pointer coordinates,
  and serde conversions. It hands plain values to the library and acts on what it returns.
- `tests/` runs the library on concrete values.
