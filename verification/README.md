# shared

The wire format of a small chat protocol, verified with Verus.

- `varuint`: LEB128 variable-length integers, with the round-trip law.
- `node`, `source_or_destination`: length-prefixed names.
- `login_state_data`, `communication_state_data`, `message_data`: the data
  of the login and communication states and their codes.
- `message`, `message_builder`: the length-framed message (destination,
  source, timestamp, data read in the connection state) and its builder.
- `display`, `text`: the text forms of messages, bodies and integers.
- `encode`, `decode`: the traits every wire type implements; each type states
  its encoding and what decoding a byte stream gives as spec functions.
- `user`, `request`, `response`, `message_body`: what clients and the server
  exchange; `routing` holds the decisions the server and client take on them,
  including the handshake's acknowledgement, and addresses their replies.

`app/` holds the tokio server and client, the serde and thiserror copies of
the library types, and the table of connected clients.
