# omf_reader

A reader for Intel/Microsoft OMF (Object Module Format) object modules,
written in Verus: each parser states in its contract exactly what it returns
for every input, and Verus proves the code meets it.

- `src/reader.rs` reads a whole module (`OmfFile::try_parse`, `OmfFile::parse`):
  the record stream from THEADR to MODEND, then the segment layout.
- `src/records.rs`, `data.rs`, `lidata.rs`, `fixupp.rs`, `modend.rs` read the
  records of a module; `comdef_record.rs`, `comdat_record.rs`,
  `pubdef_record.rs`, `lpubdef.rs` read single records on their own.
- `src/section.rs`, `symbol.rs`, `relocation.rs`, `comdat.rs`, `info.rs` give
  the sections, symbols, relocations and other facts of a parsed module.
- `src/invariants.rs` and `src/laws.rs` state and prove properties of the
  reader as a whole: every module that reads is well formed and well laid
  out, checksums of records other than COMDAT change nothing that is read,
  what LEDATA writes reads back, and more.
- `tests/` holds the tests, run against the compiled library.
