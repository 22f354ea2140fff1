# nginx-x402

The payment-gate logic of an nginx module for the x402 HTTP micropayment
protocol, verified with Verus.

- `src/` is the verified library: configuration parsing, validation and
  inheritance (`config`, `validation`, `amount`, `networks`, `error`, `text`),
  payment requirements (`requirements`, `nginx_config`), request
  classification (`request`), and the decisions of the request handlers
  (`handler`, `phase`, `ffi`, `panic_handler`), and the payment and
  requirements the C interface reads (`payment`). Calls into `rust_x402`,
  `rust_decimal` and `std` are made through trusted wrappers whose contracts
  are stated next to them.
- `app/` is the nginx module around it: registration and directives, request
  and response plumbing, the facilitator client, the C interface, logging
  and metrics.
- `tests/` exercises the library.
