# vhost-device-input

A virtio input device that is served to virtual machines over vhost-user. Each input device of the
host gets a socket of its own and a worker that serves it.

    vhost-device-input --socket-path /tmp/input.sock --event-list /dev/input/event3,/dev/input/event4

- `src/` is the library, verified with Verus: which events are owed to the guest and in which
  order they reach its ring, what the guest reads of the configuration space, how the arguments are
  read, and how a worker goes on after each of its steps.
- `app/` is the program around it: it opens the input devices, makes the control requests, and runs
  the vhost-user service.
- `tests/` runs the library, with rings in real guest memory.

The ring and the memory of the guest can change at any time. The contracts therefore speak of the
record of the calls that were made on them: only the functions of `src/vring.rs` that make a call
add to it, and `src/delivery.rs` says what it has to show.
