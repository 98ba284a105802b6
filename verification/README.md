# corim_coev

Concise Evidence (CoEV) and the OCP S.A.F.E. short-form-report (SFR) profile of
CoRIM, written in Verus.

Every type lays itself out in the CBOR/JSON data model (`value::Value`, viewed as
`value::Data`) and reads itself back from it. The layouts are spec functions
(`Codec::encoded` / `Codec::decoded`), the executable writers and readers are
proved against them, and each type proves that reading what it wrote gives the
value back.

Layout:

- `src/value.rs`: the data model, the `Codec` trait, the map walker shared by
  every map-shaped type, and the lemmas about it.
- `src/error/`: the error types, their views and their messages.
- `src/types.rs`: the CoRIM types that CoEV and the profile refer to
  (time, UUID, OID, version map, extension map, opaque encoded records).
- `src/coev.rs`: `ConciseEvidence`, `EvTriples`, their builders, the CoSWID
  evidence records, the evidence identifier and tag 571.
- `src/profiles/ocp_safe.rs`: the SFR map, issues, CVSS assessments, firmware
  identifiers, source manifests, and reading the SFR out of measurement values.
- `tests/`: executable tests of the library.
- `app/`: byte-level CBOR (ciborium) and JSON (serde_json) input and output.
