# slot

The core of a GBA-only frontend for a handheld, written in Verus: every choice the frontend
makes is an executable function with a contract that Verus proves.

- `src/` is the library. Each module states what its functions return or change over a
  mathematical model (`Seq`, `Map`, views of its types), and the properties that span
  several calls stand as public proof functions whose names begin with `law_`.
- `tests/` runs the library on concrete values.
- `app/` is the binary's side: the card's files, the sockets, the threads, the keyboard and
  the audio resampler. It carries out what the library decides.

The outside crates the library calls, `lz4_flex` for the rewind history and `png` for the
polaroid pictures, are reached through small trusted wrappers whose contracts say what
their sources show and no more.
