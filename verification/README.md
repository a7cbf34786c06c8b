# peinit_runtime

The runtime layer of peinit, the Peios init system, as a verified library.

- `src/` is the library, verified with Verus:
  - `model/`: what the supervisor hands back after each turn (dispatches,
    transitions, job and operation events).
  - `console/`: what a turn says on the console, and the quiet policy that
    decides what of it is written.
  - `kmes/`: the audit records a turn produces, and their emission with
    refused records contained and counted.
  - `event_loop/`: event-source tokens and their ordering, the loop's limits,
    turns and errors, and its arithmetic of time (wait timeouts, timer jitter,
    rearm anchors).
  - `connections.rs`, `jobs.rs`: accepted connections and when they go idle;
    the jobs channel.
  - `linux/`: the Linux runtime's configuration and state (armed calendar
    timers and their all-or-nothing reload, outstanding last-run writes, the
    console policy of the turn) and the assembly of a turn's record.
- `tests/`: tests of the library.
- `app/`: the Linux host around it: epoll, sockets, the console device and
  getrandom.
