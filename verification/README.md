# tetra_mm

Mobility management pieces of a TETRA base station, verified with Verus.

- `src/bit_buffer.rs`: a bit buffer with a cursor, read and written most significant
  bit first, with the field errors of PDU parsing.
- `src/mm_enums.rs`, `src/energy_saving_information.rs`, `src/class_of_ms.rs`,
  `src/d_mm_status.rs`: the Class of MS element, the energy saving information element
  and the D-MM STATUS PDU, each with a parser and a serializer whose contracts state the
  exact bits, and proofs that reading back what was written gives the value again.
- `src/telemetry.rs`: the events reported to the telemetry collector and their outbox.
- `src/client_state.rs`: the registry of mobile stations, their group memberships and
  the telemetry each change reports, with the laws that relate its operations.
- `tests/`: tests on concrete values.
- `app/`: text forms that rest on derived `Debug` output, and byte-level entry points
  that check what the library requires before calling it.
