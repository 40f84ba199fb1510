# grid_kernel

A deterministic grid-control kernel whose logic is verified with Verus.

- `src/` is the verified library. The largest part is the SCED offer chain
  (`sced_offer_chain`, `canonical_core`): CSV canonicalization, the stable sort by
  primary key, the length-prefixed canonical payload, the SHA-256 hash chain and
  the verifier that checks a truth package against its serialized bytes. Around
  it stand the evidence repository, the tick engine and its sentinel (`fiel`,
  `compliance`, `ise`), PTP timing checks (`ptp_compliance`, `drivers`), the
  reliability and recovery rules, protocol drivers, the IR code generator
  (`ir_codegen`, `ir_backends`) and the backcast converter's reading of an XLSX
  workbook from its bytes (`backcast_profiles`).
  Calls into `sha2`, `hex`, `csv`, `quick-xml` and `zip` go through small trusted
  wrappers whose contracts name what the crate computes.
- `app/` holds what the verifier does not take: file and process I/O, the
  command-line tools, serde types, reading the archive files, and the
  floating-point models (market snapshots, constraint evaluation, shadow prices,
  reliability envelopes, the PTP servo, the substrate's resonance).
- `tests/` exercises the library with concrete values.
