# godmode

A terminal AI agent for Google Gemini with local tools (shell, files, search,
grep, edit, HTTP, environment info), a paired question/answer transcript with
a history sidebar, slash commands, and two modes: `base`, where harmful
actions wait for approval, and `god`, where nothing does.

## Layout

- `src/` — the verified library (Verus). It holds the logic: slash commands
  and settings, the approval policy, the tools the model is told of, what
  each tool checks and reports, the steps of an agent turn and the
  conversation, error classification, and the whole interface state (input
  editing and wrapping, palette, sidebar, panels, scrolling, keys and mouse,
  the transcript's lines). `src/laws.rs` states the properties that tie
  these together.
- `app/` — the program around it: the terminal, drawing with ratatui, the
  HTTP client and the Gemini request format, the file system, processes and
  the directory walks, and the configuration file.
- `tests/` — tests of the library on concrete values.
