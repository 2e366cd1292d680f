# cpuem

An emulator for a small teaching CPU: sixteen 32-bit registers, 256 words of RAM, a
255 × 255 pixel screen with a built-in bitmap font, a 64 KiB disk and a BIOS reached
through `INT`. Programs are text files of `0`/`1` digits, eight per byte.

`src/` is the verified library (Verus): every instruction's effect on the whole machine
is specified in `src/semantics.rs` and `Cpu::execute` is proved to meet it; the BIOS,
RAM, disk, screen, text conversions and the opcode table carry their own contracts, and
`src/laws.rs` (with `law_decode_spelled_byte` in `src/decode.rs`) proves properties that
span operations. `app/` is the program around it: reading the program file, the run loop
with its messages, saving the disk file, and the raylib window.
