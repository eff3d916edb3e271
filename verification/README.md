# summarizator

A Telegram bot that stores the messages of a group chat in a Dgraph database
and, on the `/digest@summarizatorBot` command, sends its permitted user a
digest of the recent discussion threads.

- `src/` is the verified library (Verus):
  - `telegram/text.rs`: decimal writing of integers and reading of `u32`;
  - `telegram/clock.rs`: digest periods as Unix timestamps (chrono);
  - `telegram/db/`: the stored records, the database queries and the checks
    on what they return;
  - `telegram/digest.rs`: thread summaries and the step function of a digest
    building run;
  - `telegram/bot.rs`: command recognition, message records, digest answers
    and the step function of handling one incoming message.
- `app/` is the process around it: configuration, Telegram and Dgraph I/O,
  JSON, and the loops that carry out what the step functions ask for.
- `tests/` runs the library on concrete values.

Run with `TG_TOKEN` and `DB_HOST` set in the environment.
