# glib (verified core)

The logic of the GLib/GObject binding layer, written in Verus and proved
against its contracts: byte sequences and their order, the string builder,
property specifications and their builders, property lookup and value
validation, object construction and attached data, signal argument and
handler-return checks, enumeration and flags classes, the hash table, exit
codes, quarks, source ids and priorities, and the decisions behind timers,
intervals, timeouts and source-backed futures.

- `src/` — the verified library; each module states its contracts over
  mathematical views (`Seq`, `Map`, views of values and types), and the laws
  that relate several operations are public proof functions.
- `tests/` — tests of the library on concrete values.
- `app/` — the edges that call into the C library (attaching sources to the
  main loop, interning quarks, creating timer sources) and serialization.

What the library leaves to the C library, and why:

- Boxed and borrowed C data (`Boxed`, `PtrSlice`, `Slice`, `List`, `SList`,
  `BorrowStash`, `BookmarkFile`) is memory owned through raw pointers, with
  no logic apart from the C calls.
- `AnyGObject`, `BoxedAnyObject` and the `Prop*` traits rest on `RefCell`
  and `dyn Any`, which the verifier does not support.
- Spawning on a main context, `Binding::source`/`target`, GVariant-typed
  property specifications and quark interning are C calls; the decisions
  around them (spawn target, binding plan, string checks) are in `src/`.
