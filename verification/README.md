# Schema protobuf conversion

A verified library that turns table schemas into the protobuf messages that
store them and back.

- `src/compat.rs`: the protocol versions and the check that every decoded
  message passes (a message may ask for a newer reader, or be older than this
  program still reads).
- `src/schema.rs`: column types, fields and schemas, each with its value.
- `src/pb.rs`: the protobuf messages, each with its value. A column type is
  stored either in the old form (`dt`, up to version 23) or in the new one
  (`dt24`, from version 24 on).
- `src/convert.rs`: reading and writing, as functions on values and as the
  executable conversions that Verus proves equal to them.
- `src/laws.rs`: what holds of reading and writing together, such as that a
  value written and read back is the same value.
