# nits_client_core

The client core of a daemon-backed code review tool, as a state machine
without I/O, written in Verus.

A host feeds `client::ClientCore::handle` every input: what the user does, what
the daemon says, what the connection does, what the store holds, and the clock.
It acts on the effects that come back. Everything the UI shows is in one view
model, which is pushed section by section.

## Layout

- `src/` is the library; every item of it is verified.
  - `protocol`: the values shared with the daemon. `data`, `text`: lists and text.
  - `client`: the state and what it takes in. `handling` takes an input;
    `acting`, `reading`, `writing`, `browsing`, `creating`, `referring`,
    `session`, `restarting` do what the user asks; `serving`, `answering`,
    `live`, `events` take what the daemon says; `derived` brings the view up to
    date.
  - `cache`, `content`, `fetching`, `flow`: content by key, from memory, disk or
    daemon.
  - `command`, `keytable`, `keymap`: commands and the keys they are bound to.
    `keylaws`: what holds of every keymap.
  - `view`, `diff`, `explorer`, `home`, `browse`, `ref_selector`, `creation`,
    `suggestion`, `focus`: what the UI shows.
  - `patch`, `delivery`: the view as sections, and sections as bounded messages.
  - `soundness`: what every input keeps. `announcing`: what every input tells.
    `settling`: deriving the view anew changes nothing.
- `app/` is what a host adds: stored forms, messages, errors in words.
- `tests/` runs the library.

## Reading the contracts

Each type has a model, named `Spec...`, that `deep_view` gives: text is a
sequence of characters, a list a sequence of models. What an operation does is a
spec function on models, and its contract equates the two. Laws are public proof
functions next to what they speak of.
