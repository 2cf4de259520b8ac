# unifly

The verified core of a UniFi network controller client.

`src/` is a Verus library: every function in it carries a contract that
Verus proves. It holds the decisions of the client — resolving a site
identifier, classifying Session API responses, the re-login bookkeeping
after a session expires, the reconnect backoff of the event stream, how
untyped stream frames become events, merging Session API records into the
Integration model, and the live traffic chart of the terminal dashboard —
together with the laws that relate them (`law_*` proof functions).

`app/` is ordinary Rust around the library: JSON decoding (serde copies of
the library's records), the HTTP client, the WebSocket event stream and its
TLS connector. It hands the library plain values and acts on what comes
back.

`tests/` exercises the library from outside.
