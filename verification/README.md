# fritzbox_rest

A client for the AVM FRITZ!Box home automation interface, whose logic is verified with
Verus.

- `src/` is the verified library: the addresses of the box's requests (`urls`), the
  challenge-response login as a state machine (`login`), the reading of the box's
  replies (`replies`, `text`), which session a command uses (`commands`), and the
  evening watch of whether a phone is at home (`presence`).
- `app/` is the command-line tool around it: argument and INI handling, the HTTP
  requests, XML decoding, the daily timer, and the sunset computation.
- `tests/` runs the library on concrete values, among them the login example of AVM's
  documentation.
