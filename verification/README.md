# spirv_cross

The verified core of a Rust interface to SPIRV-Cross, the SPIR-V reflection
and cross-compilation library.

- `src/` is the library, checked by Verus:
  - `spirv`: SPIR-V enumerations (execution models, decorations, image
    dimensionalities and formats, built-ins), the reflected types, and their
    conversions from and to the codes the native compiler uses.
  - `msl`: the Metal Shading Language compiler options, the override tables,
    and their conversion into the native option and table records.
  - `ordered_map`: the sorted map that holds the override tables.
  - `compiler`: the decisions the reflection queries make on native results.
  - `c_string`: which names can be handed to the native compiler.
- `app/` holds the foreign declarations of the native wrapper, the compiler
  handle and the calls into it; it is ordinary Rust on top of the library.
- `tests/` runs the library on concrete values.
