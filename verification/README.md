# vrpg

The rules engine and the speech-pipeline logic of a virtual tabletop, as a
library verified with Verus.

- `src/` is the library. The D&D 5e rules (dice, ability checks, attacks,
  damage, conditions, skills, spells, weapons, challenge ratings) and the
  text-to-speech logic (voice-intent tags, chunking, phonemes, profiles,
  pre-buffering, GPU tiers, interjection choice, metrics) carry contracts
  stated over spec functions, and the laws that tie operations together are
  public proof functions (`law_*`).
- `app/` holds what Verus does not check: the HTTP, WebSocket and SSE
  servers, file and process access, audio samples in floating point, and the
  serde copies of the library's request and response types.
- `tests/` runs the library on concrete values.

Random numbers, clocks and Unicode case mapping come from `rand`, `chrono`
and the standard library through a few trusted wrappers, each documented
where it is declared.
