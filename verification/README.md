# ajour

The state and the decisions of a World of Warcraft addon manager, verified with Verus.

`update::handle_message` takes the program from one state to the next and says what is to be done
then: whether the settings are saved, which folders are deleted, and which tasks are started. Each
task ends in another message. Every reaction has a specification over a mathematical view of the
program, and the contract of the function that carries it out says that it does exactly that.

## Layout

- `src/wow.rs`, `src/flavor_map.rs`: game flavors, their names, and maps by flavor.
- `src/addon.rs`, `src/catalog.rs`, `src/config.rs`, `src/state.rs`: what the program knows.
- `src/message.rs`, `src/task.rs`, `src/perform.rs`: what it reacts to, what it asks for, and the
  messages that tasks end in.
- `src/text.rs`, `src/list.rs`, `src/order.rs`: texts, searching lists, stable sorting.
- `src/sort.rs`, `src/search.rs`: the orders of the two lists and the search in the catalog.
- `src/update/`: the reactions. `laws.rs` and `care.rs` hold what is proved of them as a whole.
- `app/`: the program around the library, which talks to files, dialogs and services.
- `tests/`: examples that are run.

## What the caller provides

The core of the addon manager decides things that the library only carries: which release an addon
would be updated to on each channel, whether that is an update, how addons, releases, themes, game
versions, states and services compare, and which folders count as the same. They come in as plain values (standings,
ranks, keys). `update::refresh_standings` notes standings that have changed, and
`update::unpack_target` names the addon that unpacked folders are to be given to.

Reactions that take much to say are opaque in `update::transition`: a proof that needs one of them
reveals it.

Before a message is handed in, `update::can_handle` tells whether the folders are known that it
takes for granted.
