# cw-ibc-core

The core of an IBC host that runs as a CosmWasm contract: clients (ICS-02),
the connection handshake (ICS-03), the channel handshake and packets (ICS-04),
ports and capabilities (ICS-05), host paths and commitments (ICS-24) and the
module router (ICS-26).

- `src/` is the host library, verified with Verus. Each operation states in its
  contract what it returns and how it changes the host's state, taken as maps
  and counters; `src/laws.rs` proves properties that span operations (packets
  are received, acknowledged and timed out at most once, what is written can
  be read back, identifiers never repeat).
  Light-client verification is not done by the library: the steps that need a
  proof come in two parts, one that says what the light client must verify and
  one that takes its verdict.
- `tests/` runs the library on concrete hosts.
- `app/` is the contract around the library: entry points, storage, the
  protobuf wire format (its fields are moved into the library's raw message
  types, which the library reads and checks), and the calls to light clients
  and modules.
