# pcics

Decoding of the PCI configuration space: the capabilities list of the device dependent
region and the PCI Express extended capabilities list, with every register turned into a
structure of named fields.

Every decoder is verified with Verus: each `From`, `TryFrom` or `parse` function states in its
contract exactly what it returns for the bytes it is given, and which error it returns on which
input. For the registers whose encoder writes the fields back where the decoder reads them,
the library proves that decoding and encoding undo each other. `MaxLatency` is encoded as the
L1 PM Substates LTR threshold holds it (scale at bit 13), not as the Latency Tolerance
Reporting register holds it (scale at bit 10), so it has no such law.

## Layout

- `src/bits.rs`: bit fields and little-endian reads, as spec functions and the executable
  functions that compute them.
- `src/capabilities.rs` and `src/capabilities/`: the capabilities list and each capability.
- `src/extended_capabilities.rs` and `src/extended_capabilities/`: the extended capabilities
  list and each extended capability.
- `tests/`: decoding of sample register values and configuration spaces.
- `app/`: what works with floating point numbers (power limits, scales, timeout ranges).
