# gun_connect

The verified core of Gun Connect, a PWA that connects a GUN relay node to a
mobile device (part of the Iceberg Protocol ecosystem).

- `src/` is the library, checked by Verus: the interface state and the
  controller that applies the user's actions to it; the loading and saving of
  keys as step-by-step sessions (passkey, encryption, store, key derivation
  are outside work named by the actions a session returns); relay check
  scripts and answers; what each screen and tab shows; the interface texts.
  `src/laws.rs` states the properties that hold across these functions.
- `app/` is the Dioxus program around it: it reads the browser, runs the
  passkey, store, ledger and graph-database calls the library asks for, and
  renders the library's view models.
- `tests/` runs the library on concrete values.
