# aias_app

Server side of an SMS login followed by a blind-signature exchange.

* `src/` is the verified library (Verus): the per-session limit on code
  verifications (`attempts`), the one-time code and its six-digit text
  (`code`, `decimal`), session tokens (`token`), the JSON response bodies
  (`response`), refusals (`error`) and the configuration (`config`).
* `app/` is the actix-web server around it: routes, cookie sessions, the
  SQLite database, the SMS gateway and the blind signer.
* `tests/` exercises the library.
