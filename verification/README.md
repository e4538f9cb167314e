# dem

A decoder for Source engine demo files (`.dem`), written in Verus.

Every decoder is specified over a mathematical model of the bit stream (a
sequence of bits, least significant bit of each byte first) and verified
against that specification:

- `src/bits.rs`: the bit model, the `Step` outcome type and the primitive
  reads over `bitstream-io`'s `BitReader`.
- `src/text.rs`: zero-terminated and fixed-size strings, held in `String` and
  `arrayvec::ArrayString`.
- `src/header.rs`, `src/message.rs`, `src/demo.rs`: the file header, frames
  and the whole demo.
- `src/messages/`, `src/svcnetmessage/`: packets, user commands, console
  commands, string tables and the net/svc messages.
- `src/laws.rs`: properties that hold for every input.
- `src/sizes.rs`: how many bits each decoder consumes, and how that compares
  with the size a message reports for itself.
- `app/main.rs`: the command-line program that reads a file, decodes it and
  prints it.
