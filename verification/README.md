# stem_magnet

Permanent magnet definitions for stem, a Simulation Toolbox for Electric
Motors.

- `src/` is the verified library (Verus). It holds the exact parts of the
  magnet model:
  - `assembly`: `MagnetAssembly<M>`, an assembly of identical magnets, with the
    number of magnets as the product of its axial and tangential repetitions
    and zero counts refused (a type invariant keeps both counts nonzero).
  - `arc`: the rules that give the direction of the air gap arc of an arc
    magnet from the signs of its radii, and the radius sign back from the arc,
    with the law that the two undo each other.
  - `representation`: the accepted layouts of field names of each serialized
    magnet type and the constructor each layout selects, with the law that no
    set of names fits two layouts and that the fields each magnet type is
    written with select its constructor from both radii.
- `app/` holds the magnet types themselves (`BlockMagnet`, `BreadLoafMagnet`,
  `ArcParallelMagnet`, `ArcSegmentMagnet`), the `Magnet` trait and the
  dimensions of an assembly. They compute with floating-point quantities and
  planar geometry, and call the library for the parts above.
- `tests/` runs the library on concrete values.
