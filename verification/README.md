# codeplug

Reads and writes the memory of a handheld UHF radio over its programming cable.

- `src/` is the verified library:
  - `frequency`: the three-byte frequency encoding, with its round-trip proofs;
  - `ctcss`, `dcs`: the tone squelch tables;
  - `channel`: tone squelch of a direction, the flags byte and the eleven-byte channel;
  - `settings`: the settings block and its fields; `settings::default_settings`;
  - `protocol`: read and write commands for the 22 channel slots and their replies;
  - `handshake`: the five-step handshake that opens a session.
- `app/` is the command line tool: serial port, logging and argument handling.
- `tests/` runs the library on concrete values.
