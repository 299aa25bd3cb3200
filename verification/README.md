# mimir_bot

A Discord bot whose decisions are verified with Verus.

- `src/` — the verified library:
  - `duration.rs`: spelling out a duration in French (`format_duration`).
  - `amimir.rs`, `user.rs`, `nickname.rs`: the commands as state machines;
    each step takes the current state and the result of the last outside
    work, and returns the next state and the next work to do.
  - `replies.rs`: the answers of `uptime` and `edt`.
  - `discord.rs`: the user data the commands read, user tags and user ids.
  - `text.rs`: decimal notation, string comparison, whitespace trimming.
  - `models.rs`: the rows of the link table.
- `app/` — the program: connection to Discord and SQLite, HTTP checks,
  drawing of the nickname picture, and the loops that run the state machines.
  It reads `res/DejaVuSans.ttf` and `res/nickname.png` at run time.
- `tests/` — tests of the library.
