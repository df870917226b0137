# alani_protocol

Shared wire and data schemas for IPC envelopes, audit events, device
descriptors, config records, corpus metadata and model metadata, written in
Verus. Every validator states, in its contract, exactly which error it returns
for which input; every fixed-capacity container states what adding to it does
and what a lookup returns.

Layout:

- `src/lib.rs`: error taxonomy, trace context, data classes and redaction
  rules, label and schema-version validation, the protocol catalog.
- `src/text.rs`: byte-level prefix, suffix and equality checks on UTF-8 text.
- `src/message.rs`: payload references, message headers, message envelopes.
- `src/ipc.rs`: endpoints, flows, route hints, IPC envelopes.
- `src/audit.rs`: audit events and audit record headers.
- `src/config.rs`: config values, entries and documents.
- `src/schema.rs`: device descriptors, corpus and model metadata, the schema
  registry.

Proof functions named `law_*` state the properties that hold across calls:
what a container reads back after a write, which duplicates it refuses, which
states its construction keeps, and which records of this crate validate.
