# sentry_uapi exchange zone

The user-side half of the kernel/user exchange zone: a fixed area of 128
bytes through which a task hands typed objects to the kernel and receives
the kernel's answers.

- `src/area.rs`: the zone, its size and the byte-level writes and reads.
- `src/le.rs`: little-endian images of integers and their round trips.
- `src/layout.rs`: where event headers and shared-memory information lie in
  the zone.
- `src/systypes.rs`: status codes, event kinds, event headers, shared-memory
  information and handles, events.
- `src/exchange.rs`: the `SentryExchangeable` objects, what each sends and
  receives, and the generic `copy_to_kernel` / `copy_from_kernel`.
- `src/laws.rs`: what holds across a send and a receive.

A zone made with `ExchangeArea::new_loopback` also accepts the objects that
only the kernel produces, so that an object can be sent and received again
on the task side.
