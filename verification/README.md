# eck — Enkryptit!

A file and folder encryption manager. `src/` is the library, verified with
Verus; `app/` is the `eck` program around it (command line, terminal
interface, files, OS credential store).

## Library (`src/`)

- `encryption`: XChaCha20-Poly1305 sealing of one chunk under the nonce
  derived from the master nonce and the chunk's position.
- `payload`: a whole plaintext cut into chunks and sealed one after the
  other; what `seal_payload` returns opens back to the plaintext, and
  sealing chunk by chunk (`chunk_range`) or opening piece by piece
  (`sealed_piece_range`) gives the same payload.
- `round_trip`: what an archive written by this version gives back (file
  and folder archives).
- `treatment`: the framing of an archive (length byte, header, metadata),
  and what to do with an object (encrypt, decrypt, inspect).
- `key`: Argon2id password keys, stored key text, and the rules that
  resolve the key of an object.
- `parameters`: the saved settings and the parsing of the settings given on
  the command line.
- `frontend`, `mock_input`: outcomes of treatments, menu choices of the
  terminal interface, and scripted answers for it.
- `inspect`: inspection reports and the lines they show.
- `metadatas`, `types`, `errors`, `text`, `samples`, `parallelism`: the
  shared data, text codecs, and units of work.

## Program (`app/`)

`main.rs` parses the command line; `treat.rs` and `archive.rs` read and
write objects; `keys.rs` reaches key files and the credential store;
`config.rs` keeps the parameters; `tui.rs` runs the menus; `pool.rs` runs
chunk and file sealing jobs on worker threads (files are streamed chunk by
chunk; keys are kept in locked memory, wiped when dropped); `model.rs` holds the serializable copies of
the stored types.
