# rustmailer_core

The decision logic of a mail server's API, written in Verus and verified:
search criteria and their IMAP `SEARCH` and Gmail renderings, paging and page
cursors, MIME section handling, message request checks, event hooks (matching,
bookkeeping, retry policy, NATS subjects), metrics snapshots, licences and
OAuth2 token handling.

- `src/` is the verified library. Each public function states its result in
  `ensures`; the laws that relate several functions are public proof functions
  (`lemma_*`). Calls into outside crates (chrono, regex, url, http, mime_guess,
  mail-parser, base64, ahash) go through small trusted wrappers whose doc
  comments say what is claimed of them.
- `tests/` runs the library on concrete values.
- `app/` holds what cannot be verified: JSON forms of the events (serde) and
  the loops that do the network, cache and clock work and hand each result to
  the library.
