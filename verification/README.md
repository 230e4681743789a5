# sgl_tls

Outbound TLS for the router and process-wide cryptography for the gateway, verified with
[Verus](https://github.com/verus-lang/verus).

* A CA bundle, where one is given, replaces the public roots for HTTP and Kubernetes alike. A
  bundle that cannot be used is an error; nothing falls back to the public roots.
* Settings are made once per process, by `initialize` or when they are first needed. The first
  outcome, good or bad, stays.
* A FIPS build checks its provider and every TLS configuration, requires the extended master secret
  of TLS 1.2, and refuses a process in which another provider was installed first.
* SHA-256 comes from AWS-LC in FIPS builds and from `sha2` otherwise.

`src/backend.rs` holds `BACKEND`, the constant that tells a default build (`ring`) from the FIPS
builds (OpenSSL or AWS-LC). A build for AWS-LC also switches on the `fips` feature of `rustls`;
without it such a build always ends in `ProviderNotFips`. The state that belongs to a process is a value (`Tls`,
`ProcessDefaults`), so that the contracts can speak of it before and after each call.

## Layout

* `src/`: the verified library. `src/external/` holds the calls into other crates, each with the
  contract that is assumed of it; everything else is proved.
* `tests/`: tests that run the library with the real crates, with TLS handshakes in memory. Many of
  them install process-wide defaults and need a process of their own: run them one at a time.
* `app/`: the process-wide entry points. They read the bundle file, hold the state behind a lock and
  make the Kubernetes client. `kube`, which only they use, does not build unless a version feature of
  `k8s-openapi` is chosen; that is why `Cargo.toml` names it.
