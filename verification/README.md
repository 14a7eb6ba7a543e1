# anvil_recompress

Recompresses Minecraft region files (the anvil format): every chunk is read, compressed with
another algorithm or level, and stored in a new region. Uses
[fastanvil](https://docs.rs/fastanvil/latest/fastanvil/) to read and write regions.

`src/` is a library that is verified with [Verus](https://github.com/verus-lang/verus). What it
states of itself, among other things:

- After a successful recompression every chunk reads as before. After a failure the output holds
  the chunks up to the one that the error names. The chunks follow each other in storage order,
  and the bytes of a new output file are fixed to the last one, up to the streams that lz4
  chooses (`region`, `recompress`).
- An existing output file is never changed unless the options allow it (`file_spec`).
- An output file that was made from the same input under the same options is not made again, and
  a changed one is. Old entries are removed by a collection of garbage, and a second one under
  the same options finds nothing to remove (`cache`).
- A file that is replaced is renamed to its backup first, and a backup is never overridden
  unasked (`cli`, `standalone`).

The library never touches a file or a database. It is handed what they hold and says what has to
be done next. Functions that call another crate are marked `#[verifier::external_body]`; the
comment above each says what is taken on trust. They stand in `codec`, `region` and in the
modules of `cache` that hold checksums, times, text and JSON.

`app/` is the command line tool and the cache on disk. `tests/` runs the library.
