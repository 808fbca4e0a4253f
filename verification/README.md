# upki-openssl

Revocation checking with upki for OpenSSL's verification of certificate chains.

A program that uses OpenSSL installs `upki_openssl_verify_callback` as its
`SSL_verify_cb`. When OpenSSL gets to the leaf of a chain, the callback copies
the chain and has upki check it. It refuses a chain that is revoked, or whose
status cannot be determined, and otherwise leaves the outcome as it was.
`upki_openssl_set_config` gives an `SSL_CTX` a upki configuration of its own.

- `src/` is the library, verified with Verus. It decides which call of OpenSSL
  or upki comes next, and what the answer to it leads to.
  - `verify.rs`: the callback, step by step.
  - `config.rs`: the configuration of an `SSL_CTX`.
  - `certificate.rs`: certificates as bytes, and their description in log lines.
  - `openssl.rs`: addresses and error codes.
  - `run.rs`: what a whole verification does and returns.
  - `laws.rs`: what holds of every verification and every configuration.
- `app/` is the C interface. It makes the calls, through raw pointers, and writes
  log lines. It needs the `upki` crate for the functions of upki.
- `tests/` runs the library against scripted answers.
