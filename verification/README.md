# moss_sdk

Client-side logic of MOSS (Message-Origin Signing System), written in Verus.

`src/` is the verified library:

- `protocol.rs`: the envelope format, sign and verify results, and offline
  verification of an envelope against a payload's JSON text.
- `digest.rs`: the payload hash (SHA-256, unpadded URL-safe base64).
- `client.rs`: the client's configuration and sequence counter, local
  signing, the two steps of signing through policy evaluation, and the
  requests of the agent lifecycle.
- `bodies.rs`, `json.rs`: the JSON bodies of API requests.
- `http.rs`: the shape of a request, and what a response status means.
- `agents.rs`: agent records.
- `uninstall.rs`: the uninstall helper's checklist.
- `laws.rs`: properties across operations, such as "what `sign` returns
  verifies against the signed payload".

Without an API key the client issues envelopes itself. It holds no signing
key, so such an envelope carries an empty `signature` (its result still sets
`signature_valid`, as the SDK always has): it binds the payload by its hash,
and nothing binds its subject, sequence number or issue time. Verification checks the format and the payload
hash and authenticates nothing else. Signed envelopes come from the MOSS API
in enterprise mode.

`app/` is the asynchronous client around it: environment, HTTP, JSON values
and the serde-derived copies of the library's records.
