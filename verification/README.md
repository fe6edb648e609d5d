# butler

A Discord moderation bot: a honeypot channel whose posters are kicked (unless
they hold a safe role), a minimum account age for newcomers, a ban command,
and the texts it posts to moderators.

- `src/` is the verified library (Verus): the honeypot rules, the message
  cache and deletion plans used to clean up after a kick, the account-age
  computations, the ban checks, and every reply and report text, each with
  its contract; the laws of the library stand there as proof functions.
- `app/` is the bot around it: the Discord gateway (serenity, poise), the
  PostgreSQL queries (sqlx), the clock, and logging.
- `tests/` runs the library on concrete values.
