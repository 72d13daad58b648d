# apple-kms

App Store Connect API tokens and code signing keys for Apple platforms, with private keys held
in memory or in AWS KMS.

- `src/` is the library, verified with Verus. Tokens (`api_token`, `jwt`), unified API keys
  (`api_key`), the search for key files (`api_key_search`), and the requests to and replies of
  AWS KMS for tokens (`es256_kms`) and for code signing (`codesign_kms`).
- `app/` reads and writes files, sends the requests to AWS KMS, and implements the traits of
  other crates.
- `tests/` runs the library.

The contracts of the calls into other crates are not proved. They stand in `base64_text`,
`json`, `jwt`, `digest`, `clock`, `pem_block`, `p256_signature` and `x509`, each with a comment
that says what is claimed.
