# siggy

The state and the rules of a terminal client for Signal, as a verified library.

The library holds no I/O. A client is a value of type `App`. Keys, mouse
clicks, lines of input, events of the message service and the passing of time
are handed to its methods. What is to be done outside comes back as plain
values: a `SendRequest` for the message service, `DbJob`s for the database and
`Effect`s for everything else (notifications, the clipboard, files, images).
Answers come back through methods of their own.

## Layout

- `src/app.rs` has the client's data, and its model `AppView`. Every method of
  `App` states the model after the call as a function of the model before it.
- `src/signal.rs`, `src/conversation_store.rs` and `src/settings.rs` have the
  types of messages, conversations and settings.
- `src/input.rs`, `src/commands.rs`, `src/outgoing.rs` and `src/sending.rs` read
  lines of input and carry them out.
- `src/keypress.rs`, `src/menu.rs`, `src/lists.rs`, `src/mouse.rs` and the
  modules beside them answer keys and clicks, in the modes and in the overlays.
- `src/keybindings.rs`, `src/keyfile.rs` and `src/keys.rs` have the key
  profiles, their files and the spelling of keys.
- `src/events.rs`, `src/messages.rs`, `src/receipts.rs` and `src/directory.rs`
  take in what the message service reports.
- `src/upkeep.rs` has what happens with time.
- `src/properties.rs` has laws about the client as a whole, `src/arrivals.rs`
  those about messages that come in, and `src/refreshing.rs` those about texts
  that stay when names are resolved anew. Laws about one part stand beside it in
  its module.
- `src/text.rs`, `src/offsets.rs`, `src/utf16.rs`, `src/order.rs`,
  `src/strmap.rs` and `src/kindset.rs` are the ground that the rest stands on.
- `app/` runs the client: the database, the configuration file, the terminal's
  keys, images, the clipboard and notifications.
- `tests/` runs the library on concrete values.

## What is trusted

A few functions of the standard library and of other crates are called behind
functions whose contracts are not proved: letter case and letter classes, the
spelling of a control character, dates in a time zone, the list of emojis, and
the reading of a quoted string. Each says in its doc comment what is claimed.
