# Meridian

Meridian is a desktop assistant that gathers the day's emails, chat messages,
tickets and meetings from Gmail, Outlook, Slack, Zoom, Google Chat and Jira,
asks a local language model (Ollama) for a morning briefing, and keeps tasks,
reminders and health nudges. Its data stays on the machine: a local SQLite
database, with secrets in the operating system's keychain.

## Layout

- `src/` is the `meridian` library, verified with Verus: AES-256-GCM
  encryption of secrets, the keychain's names and database key, tasks and
  reminders, the briefing (fallback summaries, priorities, reading the model's
  answers), the prompts, the OAuth flows' URLs and checks, the mapping of each
  service's answers to events, the integration registry and the health-nudge
  rules.
- `tests/` runs the library on concrete values.
- `app/` is the Tauri application around it: commands, SQLite storage, the
  keyring, HTTP clients, the Ollama daemon and the background loops.
