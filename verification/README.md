# raft

A Raft node as a verified state machine: a node takes one input message at a time
(a request or an answer of another node, a timer event, a client's request), changes
its state and answers with output messages, then hands the newly committed commands to
the user's state machine.

- `src/state.rs`: the node's state (roles, persistent and volatile parts, the log),
  node ids and the sets and maps of node ids.
- `src/message.rs`: the messages.
- `src/msg_process.rs` and `src/msg_process/`: what each message does; the contracts
  are written as step predicates over the states before and after.
- `src/basic.rs` and `src/basic/`: an earlier design of a node, with a log of indexed
  entries, control messages and a timer-driven role state.
- `src/timer.rs`: the timer's messages.
- `app/`: the loops that run a node over channels or a message queue, the timer's
  arguments, and conversions between std's IP addresses and the library's.
