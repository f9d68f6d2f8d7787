# elpis

The Elpis Miniapp protocol and sandbox bridge, verified with Verus.

A guest Miniapp running in a sandboxed VM renders a widget tree and drives
the host through `askHost(api, args)` calls. This crate holds the logic of
that exchange, each part with a contract that Verus proves:

- `node`, `style`, `animation`, `canvas`, `scene3d`, `json`: the widget tree
  and its values. Floats are kept as their IEEE-754 bits (`float`); every value
  has an exact model (`facet`).
- `diff`: the tree differ and the patch applier. Children lists in which some
  child has a key and no key repeats are paired by key; others by position.
  `roundtrip` proves that applying the script the differ produces turns the
  old tree into the new one (for every pair of trees), that the script is
  empty exactly when the old tree already is the new one, and that a keyed
  child keeps its identity (it is moved and patched, never replaced or
  inserted anew) whatever its unkeyed siblings are.
- `json_text`, `hostcall`: the host-call envelope read from its JSON text
  (through the JSON library), its argument array, and the replies.
- `bridge`: the host-call dispatcher as a state machine: state, call and
  decoded argument in; next state, backend effects and reply out. Its laws
  (storage read after write, router history, outbox, render scripts) are
  proved over the dispatcher's model.
- `event`, `backend`, `sandbox`: UI events, the headless backend, and the
  instance configuration.
- `lower`: the mapping of a widget tree onto the element description the
  Blinc backend builds.

`app/` is the program around the library: the command line, the VM pump, the
JSON encoding of the protocol types, and the effects on the UI backend.
