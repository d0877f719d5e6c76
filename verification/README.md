# bot-terminal

A Telegram bot that runs shell commands, in a chosen working directory and
within a time limit, for the Telegram users listed in `BOT_ALLOWED_USER_IDS`.
Its settings can be changed from the chat and are stored in `.env`.

## Layout

- `src/` is the verified library (Verus). It takes every decision: which
  users may use the terminal, what a chat message asks for, how a setting is
  checked, written into `.env` and applied, how command output is cut down,
  and what the bot answers. `src/laws.rs` proves properties that span these
  functions: numbers written to `.env` read back unchanged; the lines of a
  rewritten `.env` read back as written, and rewriting it twice with the same
  value is rewriting it once (both when no line holds a `\n` or ends in a
  carriage return, and, for the second, when the key does not begin with
  whitespace); the user list is read entry by entry; a bot name after `@`
  changes no command (unless the word begins with `!run`); each setting
  holds the value of its latest committed change; truncation bounds.
- `app/` is the program around it: environment variables and `.env`,
  Telegram (teloxide), the file system and the shell (tokio). It performs
  the steps the library asks for and hands back what happened.
- `tests/` runs the library on concrete inputs.

## Configuration

```env
TELEGRAM_BOT_TOKEN=...
BOT_ALLOWED_USER_IDS=123456789,987654321
BOT_WORKDIR=.
BOT_COMMAND_TIMEOUT_SECS=20
BOT_MAX_OUTPUT_CHARS=3000
```

Chat commands: `/help` (or `/start`), `/config`, `/run <command>` (or
`!run <command>`), `/set_workdir <path>`, `/set_timeout <seconds>`,
`/set_max_output <chars>`.
