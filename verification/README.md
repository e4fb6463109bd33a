# I2C layer (crate `lib`)

The Rust side of the Linux I2C subsystem, verified with Verus over plain values.

- `src/error.rs`: kernel errors (negative errnos), `to_result`, error pointers.
- `src/flags.rs`: the `I2C_FUNC_*` flag and flag set, with their set laws.
- `src/cstr.rs`: C strings laid into fixed-size fields, and how C reads them back.
- `src/algo.rs`: the `I2cAlgorithm` trait, the table of callbacks, and the checked callbacks.
- `src/adapter.rs`, `src/client.rs`: adapter and client handles, options, board info, registrations.
- `src/drivers/`: the i801, SiS96x and sample drivers, and the probe state machine they share.
- `app/lib.rs`: the kernel glue (raw pointers, C calls, the probe loop); it builds only
  inside a kernel tree.
