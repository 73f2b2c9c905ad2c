# laserlogin

Login and usage logging for a shared laser cutter. Users unlock the laser with a card
(`/unlock/<card-hash>`), lock it again (`/lock`), and every use is logged with its user,
project and time. Admins manage the users through a small web interface.

- `src/` is the library, verified with Verus: records stored as rows of sqlite tables
  (`sql_object`, `db_object`), the query builder (`query`), the column types
  (`sql_types`), the set-once database storage (`persistence_provider`), the sessions of
  logged-in users and the state of the laser (`model`), and the request rules
  (`login_users`). `placeholders` proves that every statement has one parameter per `?`.
- `app/` is the web service around it: routes, cookies, templates, running the statements
  on sqlite, and the clock.
- `tests/` runs the library on concrete values.

All data is kept in the file `db.db`. When the database is new and a file `first_user`
holds an email address, an admin with that address is created.

A login is accepted when the webdav server `https://webdav.fh-kiel.de/transferdaten`
answers `200 OK` to a request with the entered email and the last presented card hash as
password. The request is made by `app/`; the library decides on the status it got back.
