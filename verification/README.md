# handless

The settings model and the transcription decisions of the Handless
speech-to-text desktop application, verified with Verus.

- `src/settings/` — the settings, their built-in catalogs and defaults, how
  stored settings are normalised, migrated, recovered, loaded and written
  back (with laws: migrations and catalog updates settle after one pass,
  what is written reads back the same).
- `src/stt_provider/` — the registry of cloud speech-to-text providers, their
  request options, and how a dictionary is merged into those options.
- `src/actions.rs` — what the transcribe shortcut decides: the streaming plan,
  local streaming chunks, the steps after a recording stops, Chinese script
  conversion (with OpenCC), word counts.
- `src/cloud_stt.rs` — language codes and routing of requests to services.
- `app/` — the JSON form of the settings store and the loop that runs the
  shortcut against recording, transcription and paste services.
