# truelayer-cli

A command-line tool for the TrueLayer sandbox.

- `generate-webhook ... executed|failed` creates a payment to an external account,
  starts its authorisation flow, reads the mock provider's payment id and token out of the
  redirect URI, and asks the mock provider to execute the payment or reject its
  authorisation, so that the sandbox emits the matching webhooks.
- `route-webhooks --to-addr http://localhost:8080 ...` pulls the webhooks waiting at the
  sandbox webhook router every five seconds and forwards each one, body and headers
  unchanged, to the given address.

Layout:

- `src/` is the library, verified with Verus: request construction, the reading of API
  answers and redirect URIs, the pull loop's decisions, log lines and error texts.
  `uri` (URL and token parsing), `mockprovider` (mock provider requests and answers),
  `payment` (payment and authorisation-flow requests and answers), `config` (API client
  configuration), `webhook` (the router client and its pull/forward decisions), `transport`
  (publishing JSON messages), `command` (what a command reads from a redirect URI),
  `text` and `status` (decimal rendering, HTTP status classes).
- `app/` is the binary: argument parsing, the HTTP calls and the loops around them.
