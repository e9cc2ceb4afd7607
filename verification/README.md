# voicelink

The client side of a small encrypted voice-chat protocol, as a verified Verus
library (`src/`) and the program around it (`app/`).

- `connection` — packet prefixes and the per-process `Session` (a random
  four-character connection id and the encryption key); `auth` — the key store
  and the packets built with it; `udp` — the connection handshake as a state
  machine (`connect`, `step`) with its laws: counters stay in bounds, every
  handled event brings the handshake closer to its end, and only a reply that
  echoes the id authenticates.
- `audio` — frame size, channel layouts, the voice payload, and the buffer
  handling of the microphone path (blocks, channel splitting and
  interleaving, with the laws that each of splitting and interleaving undoes
  the other, and that taking blocks in a loop yields consecutive pieces of the
  buffer).
- `connect` — the test client's JSON authentication packet.
- `util` — random strings and SHA-256.

Encryption is done by the caller: the functions that frame an encrypted body
take its ciphertext.

The SHA-256 digest behind `get_key` comes from the `sha2` crate. It stands in
for the client's own hashing module, which the key derivation called by the
name `sha256` but whose source is not part of this project.
