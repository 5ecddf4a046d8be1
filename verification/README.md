# messenger

The verified core of a small end-to-end encrypted chat service.

Messages and chat keys are encrypted with AES-256, each 16-byte block on its
own, after zero padding; ciphertexts travel as Base64 without padding. The
library states exactly what each function computes over a model of the bytes
and texts involved, and proves the round trips: decrypting what was encrypted
gives the plaintext back without its trailing zero bytes, every chat key is
read back unchanged (a key fills two whole blocks, so nothing is trimmed), a text that does not end in NUL
is read back unchanged, and re-encrypting the stored chat keys under a new
deployment key keeps every chat key. Encryption is shown to work block by
block: the ciphertext of whole blocks followed by more data is the ciphertext
of each part, one after the other. The server's endpoints are split into
verified steps (session, membership, insert) so that, for instance, the
messages of a chat are read only for one of its members and a request
without a logged-in user is answered 401 before anything is read. On the
client, an upload carries the typed text and each attached file, in order,
encrypted under the chat key.

Layout of `src/`:

- `blocks`, `cipher`, `codec`, `encryption` — padding, AES-256 and Base64
  (the `aes` and `base64` crates behind trusted wrappers), and the public
  encryption functions.
- `email` — recognition of e-mail addresses in a text.
- `client` — the client window's state, the transition of each user action,
  and what the window does with the server's answers.
- `server`, `credentials`, `deployment`, `decimal` — the server's endpoint
  decisions, Argon2 password hashes and session keys (the `argon2`, `rsa` and
  `rand` crates behind trusted wrappers), start-up key handling, and decimal
  notation.
- `common`, `common_structs`, `models` — request and response bodies and
  database rows.

`app/` is the HTTP server (actix-web, diesel with MySQL) that reads requests
and the database and lets the library decide.
