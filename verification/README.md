# usbooty

The decision logic and binary-format readers of a tool that writes bootable
USB drives, with their behaviour stated as contracts and proved with Verus.

- `src/` is the verified library: image analysis (ISO9660 markers, a UDF
  reader, SBAT and DBX revocation checks, VHD footers, compression magic),
  device listing and classification, job planning, the helper's progress
  protocol, QEMU boot-test planning, the Microsoft download catalogue, and
  the state machine behind the main window.
- `app/` is a plain Rust command-line driver around the library: it does the
  file, process and network work and hands the results to the library.
- `tests/` runs the library on concrete values.
