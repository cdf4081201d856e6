# cgns

Bindings for CGNS (CFD General Notation System) files with a verified core.

- `src/` is the library, verified with Verus. It holds the typed vocabulary
  of the format (`data`), the error type and the mapping from the status
  codes of the CGNS C library (`error`), the decoding of the NUL-terminated
  name buffers that library fills (`util`), and the handles to files, bases,
  zones, sections, solutions, boundary conditions and zone interfaces with
  their lookup, listing and decoding logic. Each operation takes what the C
  library reported (counts, indices, status codes, filled buffers, or the
  failure) and turns it into a typed result; its contract states that
  result exactly.
- `tests/` exercises the library on concrete values.
- `app/` is the unverified layer that calls the CGNS C library through the
  `cgns_sys` bindings, reads and writes floating-point data, closes files on
  drop, and offers `Display` for errors. It hands the library plain values
  and returns what the library decides.
