# watchcat_server

The backend of the watchcat room-access system: door devices report card
swipes (`/card_login`), users log in with Google (`/token_login`), and rooms
are reserved through `/reserve`.

- `src/` is the verified library. `validate` checks card ids, MAC addresses
  and user ids; `model` holds the table rows and the access rules (which
  reservations conflict, which reservation opens a room, which card may be
  used); `routers/` holds one state machine per endpoint, each step taking
  the outcome of the last database call and giving the next call or the
  reply; `env_check` is the start-up settings check; `text` is substring
  search; `trusted` holds the calls into `regex`, `chrono` and the system
  clock, whose contracts are believed.
- `app/` is the server itself: settings, logging, the database pool, the
  Google client, and the actix handlers that run the state machines.
- `tests/` exercises the library on concrete values.
