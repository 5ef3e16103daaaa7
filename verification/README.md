# xash3d_engine

Verified logic of a Half-Life (Xash3D) engine binding, written in Verus.

- `src/` — the library, checked by Verus: activity and animation-event numbers and their
  names, key-button and bone-controller bit flags, C-string buffers, studio model lookups
  (by name, by activity, by weight, at random), sound precaching plans, and the
  triangle-drawing stream discipline.
- `tests/` — tests on concrete values.
- `app/` — glue that runs the library's decisions against a running engine, and the parts
  that compute on floating-point numbers.
