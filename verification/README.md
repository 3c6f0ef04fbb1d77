# payfake

Rust SDK for Payfake, a Paystack-compatible payment simulator, split in two:

- `src/` — the verified library. Client configuration (default base
  URL, trailing-slash removal, default timeout), the route of every endpoint
  (`auth`, `charge`, `control`, `customer`, `merchant`, `transaction`: method,
  path with its pagination and filter query, authentication), the URL and
  bearer token of each request (`client::Inner`), the reading of the response
  envelope into data or a `PayfakeError`, and the decimal rendering of page
  numbers. Laws of the library are public proof functions (`law_*`).
- `app/` — the asynchronous HTTP client built on `reqwest`: the namespaces and
  `Client`, the serde copies of the data types, and the two scenario types
  that hold floating-point numbers.
- `tests/` — tests of the library on concrete values.
