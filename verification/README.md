# socket_activation

A playground for socket activation: it serves a greeting on Unix sockets and relays
connections between Unix sockets and TCP ports, on sockets of its own or on those that
a service manager hands over.

- `src/` is the library, verified with Verus. It decides what is done, in which order,
  and what is answered, and performs no input or output. Its machines (`Pong`,
  `Proxy`, `Relay`, `PrivateBind`, `SocketFileSearch`, `Handler`) name the operation to
  perform in `action` (`path` for the search) and go on from its outcome in `advance`.
  The functions whose names start with `law_` state what holds of every run.
- `app/` is the program: the command line, the runtime, and the operations themselves.
- `tests/` holds the tests of the library.
