# sendme phrase handoff

Two people who know the same phrase pass a share ticket from one to the other over
a gossip topic. This crate holds the part of that which can be right or wrong by
itself, with its contracts proved by Verus.

- `wire`, `codec`: the messages on the wire, and that what is written is read back.
- `digest`, `cipher`, `pake`, `topic`, `clock`: calls into the cryptographic crates,
  the topic tracker and the system clock, with what is relied on stated.
- `crypto`: identifiers, session keys, sealed ticket envelopes, acknowledgement tags.
- `event`, `sender`, `receiver`: the two sides as state machines over events and time.
- `laws`: what holds of a handoff as a whole, up to its success.
- `desktop`: decisions of the desktop shell.

`app/` runs the state machines on the network and in the shell. `tests/` runs the
library with the real cryptographic crates.
