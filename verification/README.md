# photometer

The logic of a photo-sharing site for groups of friends: sessions and
registration, group events (publications, votes, timetable changes, group
creation and invitations), comments and mentions, the mailbox, EXIF data,
cookies, request texts and multipart bodies, and the statements and rows the site
exchanges with its MySQL database.

- `src/` is the library, written and proved with Verus. The functions that
  compute carry contracts over plain mathematical values; the `law_*` proof
  functions state what holds across functions and calls (the history of
  sessions, stored values read back, pagination, votes).
- `tests/` runs the library on concrete values.
- `app/` is the server around it: settings, database access, the mail thread,
  libexif, and the web routes for the mailbox, user search, comments, log-in
  and registration.
