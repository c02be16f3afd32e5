# love_unlimited

The Love-Unlimited memory hub integration for Tabby, with its logic verified
by Verus.

- `src/` is the verified library. It builds the configuration from the
  environment's variables, checks it, decides which memory each event, error or
  selection becomes (content, type, significance, tags, metadata, privacy),
  plans each HTTP request to the hub (method, URL, headers, query) and reads
  the hub's replies (status, parsed body) into results and errors.
- `app/` drives the network: it reads the process environment, sends the
  planned requests with `reqwest`, converts JSON with `serde`, spawns the
  event logger's tasks on Tokio and gives the errors their `Display`.
- `tests/` exercises the library on concrete values.

Every operation on the hub starts with a `Step`: either the answer is already
known (the integration is disabled), or the step names the request to send.
The caller sends it, sends it again after a request that got no reply for as
long as `HubClient::retry_after_failure` allows (at most `max_retries`
retries), and hands the status and body to the library's reply functions.
Which memories are stored at all follows the configuration's feature flags.
