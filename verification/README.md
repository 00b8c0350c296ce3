# passman

A password manager. The library (`src/`) holds the vault and its rules,
verified with Verus:

- `vault`: entries found by name without regard to case; add, get, list,
  delete, rename, update; `properties` states what holds across these calls.
- `crypto`: Argon2id key derivation, AES-256-GCM, and the base64 text form of
  a sealed vault; `sealing` puts them together, and proves that opening a
  sealed vault with its master password gives back its bytes and salt.
- `cli`, `gui`, `storage`: the checks the commands make, the entries as the
  front end receives them, and where the vault file lives.

`app/` is the program around it: prompts, files, JSON, the command line and
the tauri front end.
