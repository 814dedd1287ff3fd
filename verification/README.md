# peer_pressure

A peer-to-peer chat over TCP with a terminal user interface.

`src/` is the library, verified with Verus:

- `domain`: peers, messages and chats.
- `application`: the application events and errors, and the use cases
  (add a peer, send a message, receive a message, connect and resend
  unsent messages, peer connected/disconnected). Each use case is a state
  machine: it names the next effect it needs (`Effect`: a repository
  lookup or update, a network operation, an announcement, or the end with
  its result) and advances on the answer (`Outcome`).
- `address_map`: the map keyed by peer address that the stores and tables
  use.
- `infrastructure`: the in-memory chat and peer stores behind the
  repositories, the records written to disk, the messages sent on the
  wire, and the decisions of the outbound connection table.
- `presentation`: the user interface state, how it follows application
  events, how key presses edit it and turn into user commands, the text
  and styles the screen shows for it, and how the stored state is loaded
  into it.

`app/` is the program around it: command line, files, sockets, the event
bus, the terminal, and the loop that performs the effects a use case asks
for. `tests/` exercises the library.
