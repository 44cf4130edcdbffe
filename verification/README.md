# honeypot

The decision logic of a Discord anti-spam bot, verified with Verus.

- `src/files.rs`: which files a message carries (attachments, embedded
  images, links found by a regular expression) and which of them are images.
- `src/hashing.rs`: image hashes, hash records, and the step functions that
  add an attachment's hash to the record or remove a hash from it.
- `src/honeypot.rs`: the honeypot channel: who gets banned, the captcha, and
  when a ban is lifted.
- `src/commands.rs`, `src/errors.rs`: the texts of replies and reports.
- `src/*_laws.rs`: properties of whole runs of the step functions.
- `app/`: the Discord, HTTP and Postgres side, which performs the actions the
  step functions ask for and feeds back what happened.
