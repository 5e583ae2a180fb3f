# token_monitor

The verified core of Token Monitor, a menu-bar client that shows usage
statistics, subscriptions and balance from a usage dashboard API.

- `src/text.rs`: trimming, the `Bearer ` prefix, base URL normalization,
  decimal rendering of integers.
- `src/api.rs`: the requests (URLs, JSON bodies, bearer tokens) and how a
  reply (status, text, parsed body) becomes data or an `ApiError`.
- `src/auth.rs`: the keychain accounts and the rules for reading and writing
  credentials.
- `src/session.rs`: the commands as step machines: login with a password or a
  pasted token, and fetching a resource with at most one token refresh on 401.
- `src/window.rs`: the popup's delayed auto-hide and the tray-click toggle.

`app/` is the Tauri shell: it sends the HTTP requests (reqwest), reads and
writes the keychain (keyring), parses JSON (serde), and drives the step
machines of `session`.
