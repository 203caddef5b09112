# api0_types

The wire types shared by the api0 gateway, store and SDK, with the rules they
carry proved by Verus.

- `src/` is the verified library: the failure envelope (`ErrorCode`,
  `ApiError`, `Success`) and the HTTP status each failure goes with, the wire
  spellings of `ErrorCode` and `PlatformRole` and how they read back, the
  defaults of missing fields, the normalisation of a parameter's flexible
  `required` flag, the identity-forwarding and content-type rules of an
  endpoint, and the plain payload structs.
- `app/` holds the serde forms of the payloads (derives, field attributes,
  `Display` for the envelope), each converting to and from the library type
  and calling the library for the rules above.
- `tests/` exercises the library on concrete values.
