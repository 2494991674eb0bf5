# ntfs_attribute

Reads the attributes of an NTFS file record: their headers, the list that they form, and where
their names and values lie.

The library under `src/` is verified with Verus and does no I/O. It is handed a window of the
filesystem's bytes, and says which bytes it needs when the window is too small. `app/` is a thin
layer that reads those bytes from anything that implements `Read` and `Seek`.

- `attributes.rs`: the list of attributes: stepping through it, and searching it for a type.
- `attribute.rs`: a single attribute: its type, flags, name and value.
- `attribute_header.rs`, `little_endian.rs`: the on-disk format, decoded with `binread`.
- `attribute_type.rs`, `attribute_flags.rs`: the known types and flags.
- `attribute_value.rs`, `structured_values.rs`, `string.rs`: what an attribute holds.
- `window.rs`: the bytes that are known.
- `laws.rs`: what holds of the library as a whole.
