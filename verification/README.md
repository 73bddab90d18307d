# bert

A broker that carries many client byte streams over one server stream, and
the small relay and tunnel programs built around it.

- `src/` is the library, verified with Verus: framing of chunks with the
  client id as last byte (`frame`), the broker's routing step (`routing`),
  the readers and writers of the server and of each client (`server`,
  `client`), client numbering (`ids`), a first, single-connection broker
  (`broker`), the relay's roles and message framing (`relay`), websocket
  message payloads (`wsframe`), and the declarations of outside types and
  calls that the proofs rest on (`trusted`).
- `app/` holds the tasks, sockets and programs around the library; it asks
  the library for every decision.
- `tests/` runs the library on concrete values.
