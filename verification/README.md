# viztokens

A live terminal monitor of coding-assistant sessions: it follows the JSON
Lines transcripts that the assistant writes under its configuration
directory, and the sessions of the Hermes agent kept in its SQLite state
database, and shows every message with its tokens as it arrives.

## Layout

- `src/` is the verified library (Verus). It holds what the monitor decides:
  reading a transcript line into messages, discovering sessions and ordering
  them, turning Hermes rows into messages, the message filter, the interface
  state (scrolling, following, token totals, the layout of the message
  list), the key bindings, and how messages and sessions are written to and
  read back from database rows. Calls into `serde_json`, `chrono`,
  `ratatui`, `std::path` and the system clock stand behind small trusted
  wrappers whose contracts name their results.
- `app/` is the program around it: command-line parsing with `clap`, file
  and database access (`rusqlite`, `notify`, `tokio`), reading transcript
  lines with `serde`, and drawing the interface with `ratatui` and
  `crossterm`.
- `tests/` exercises the library on concrete values.
