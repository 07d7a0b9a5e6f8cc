# include_zstd

Data compressed with zstd when a call site embeds it, and decompressed on
first use at run time, handed out as `&'static [u8]` or `&'static str`.

- `src/` is the library, with its contracts proved: compression and decompression
  (`codec`), the cached asset with its metadata (`asset`), what a call site
  embeds (`expand`), UTF-8 decoding (`text`), the grammar of the
  file-embedding input (`input`), and path resolution (`paths`).
- `app/` writes the code of each embedding call site as tokens, and reads
  the file system, the environment and the compiler's spans for the library.
- `tests/` runs the library.
