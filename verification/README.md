# pubg

A verified library for the PUBG/CS2 enhancer: the CS2 offsets and their
signatures, encrypted pointers, the layout of the engine objects, the health
decryption, and the decisions of the player report.

- `src/` is verified with Verus. Memory reads and pointer decryption are not
  performed there: the resolvers (`actor_list`, `health`, `scan`) are state
  machines that name the next read or decryption and decide on its result.
- `app/` drives those machines over a `raw_struct::MemoryView`, does the
  floating-point part of the report, and hosts the `log` front of the frame
  logger.
- `tests/` runs the library on concrete values.
