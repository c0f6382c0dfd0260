# kcp_link

The connection layer of KCP endpoints: packets, handshake, liveness and flow control for
reliable streams over datagrams, written in Rust and verified with Verus.

An endpoint multiplexes any number of connections over one flow of datagrams. A connection is
opened by a handshake of three packets that survives the loss and the repetition of each of
them, is kept alive by pings, and is closed by each side on its own. The bytes of an open
connection go through a KCP engine, which takes care of order and retransmission.

## Layout

- `src/` is the library. It does no input or output: it decides, and says what is to be done.
  - `packet_def`, `wire`: the packet, its header, and both on the wire.
  - `state`: the state machine of a connection.
  - `conn_id`, `conn_state`: the address of a connection, and what is kept of it.
  - `endpoint`, `state_map`: all connections of an endpoint; what a packet, a tick of the
    timer, the clean-up and the closing of a side lead to.
  - `connect`: the wait for a handshake.
  - `connection`: sending, receiving and waking up on an open connection.
  - `ffi_safe`: the configuration of the engine and what is computed from its numbers.
  - `log_throttle`: bounds on what a peer can make the log grow by.
  - `buffer`, `printing`: the contracts of the byte buffers, and of what prints packets.
- `app/` runs it: tokio tasks, channels, locks, the clock, the log, and the calls into the
  engine.
- `tests/` runs the library on examples.
- `extras/ikcp_fields.c` gives `app/` access to fields of the engine's control block. It is
  compiled together with `ikcp.c`.

## What is proved

The functions of `src/` have contracts that fix their results and effects, and none of them
panics where its precondition holds. Where conversation numbers start is left to chance. Of
`{:?}` it is stated which names and values are shown in which order; their layout follows the
formatter. On top of that, public proof functions state what
holds across functions: that packets survive the wire, that a handshake recovers from loss,
that exchanges of answers come to an end, that a half-open connection is answered a bounded
number of times, that connections only move forward, that a message is cut into chunks
without losing a byte, that a send side closes only when all is delivered, and more of the
kind.

The contracts of `bytes`, `zerocopy`, `dashmap`, `rand` and `core::fmt` are believed, as is
the machine.
