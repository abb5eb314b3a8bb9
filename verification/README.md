# sentry_types

The types of the Sentry event protocol (events, breadcrumbs, exceptions,
threads, stacktraces, contexts, debug images, user feedback) as a library
verified with Verus.

- `src/` is the verified library. Each type carries the protocol's rules as
  functions with contracts: how addresses are written and read back, what a
  new or default event holds, how a context's or debug image's JSON object
  names its kind, and how the insertion-ordered maps behave. Laws that relate
  several functions (text and JSON round trips of addresses, the kind and
  members of a context or debug image surviving a write and a read, maps
  keeping insertion order) are proof functions next to the code they speak
  of.
- `app/` holds the same types with their `serde` encoding, converted to and
  from the library's types, and the encoding steps that only `serde` can do.
- `tests/` runs the library on concrete values.
