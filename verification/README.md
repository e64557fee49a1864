# pmx

Binary encoding of PMX (Polygon Model eXtended) model data, verified with Verus.

- `src/pmx_types.rs` — vertices, faces, materials, bones, IK links and morphs.
  Floating-point fields hold their `f32` bit patterns.
- `src/encoding.rs` — the byte layout of every record as spec functions
  (little-endian integers, length-prefixed UTF-8 texts, sized indices, and the
  flag-dependent parts of bones and materials).
- `src/binary_writer.rs` — `BinaryWriter`, which appends exactly those bytes.
- `src/decoding.rs`, `src/record_decoding.rs` — what a reader recovers from
  bytes, as spec functions, with the laws for integers, floats and texts.
- `src/record_roundtrip.rs` — a written record reads back as itself, and a
  record read back and written again gives the same bytes.
- `src/record_rewrite.rs` — the bytes a record was read from are exactly the
  bytes that writing it lays out.
- `src/binary_reader.rs` — `BinaryReader`, which reads exactly as those laws describe.
- `app/lib.rs` — the file side: creating the output file and loading an input file.
