# tradary

The rules of an on-chain trading journal, verified with Verus.

- `src/` is the library. `state` holds the stored records (user profile with
  aggregate statistics, trades, tags); `instructions` holds one module per
  instruction, each with a `handler` that validates its input, computes the
  new records, and returns the event to announce. Contracts state, for every
  input, which error comes out or what every field becomes; a refused
  instruction changes nothing.
- `app/` is the Anchor program around it: account contexts and constraints,
  the serialized account layouts, events and error codes, the clock, and the
  entry points.
- `tests/` runs the handlers on concrete values.
