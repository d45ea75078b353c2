# atomic_habits

The decision logic of a Holochain zome that keeps *burners* (named groups of
habits) and *habits*, verified with Verus.

The conductor does the storage and the networking, so every handler is a step
machine: it hands out one host request at a time (`host::Call`) and is resumed
with the host's reply (`host::Reply`) until it answers. The contracts of the
`resume` functions say which request follows which reply, and what the answer
is.

- `src/hash.rs`, `src/entries.rs`: addresses (raw hash bytes) and entry values.
- `src/text.rs`: burner search paths (`all_burners.<first three bytes of the
  lower-cased name>`), through std's lower-casing and `hdk`'s `Path`.
- `src/host.rs`: requests, replies, errors.
- `src/coordinator/`: the coordinator zome (create, update, delete, lookups and
  listings of the caller's burners).
- `src/coordinator/store.rs`: a model of what the host keeps (the answers it
  gives to lookups, the caller's chain and burner links), and the laws the
  handlers obey across calls over it: the latest record is its own latest, an
  update moves the caller's burner link, created burners are found and listed,
  deleted ones are not, and an updated one is listed once.
- `src/zome/`: the older single zome (burners and habits listed under one path,
  answered in GraphQL shapes).
- `app/`: the entry points, Holochain's entry and link type definitions, and the
  host calls themselves. Both zomes' handlers live in this one crate, so the
  older zome's `create_burner` and `update_burner` are plain functions there:
  the coordinator zome exports those names.
