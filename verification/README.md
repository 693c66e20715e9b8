# fts_launcher

The Reaper-aware content of the FTS launcher, verified with Verus.

- `src/text.rs`: the text operations items are built and read with
  (searching, splitting, trimming, decimal formatting and parsing), each
  against a specification over `Seq<char>`.
- `src/item.rs`: launcher items, their actions and provider settings as plain
  values, with views.
- `src/reaper/`: the actions, FX, tracks, markers and transport providers
  (what each lists, and what activating one of its items asks the DAW to do),
  and the Reaper tag taxonomy.
- `src/launcher.rs`: the launcher's module identity and actions, the query
  engine's magic words, default presets and preset seeding, and its theme.
- `app/`: the glue to the DAW and the launcher runtime: it reads from the DAW,
  hands plain values to the library and carries out its decisions.
