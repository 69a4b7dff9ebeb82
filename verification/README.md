# razer_control

The tray side of a Razer laptop control daemon: the wire protocol spoken with
the daemon, device capabilities, fan presets, the tray menu and tooltip, and
the reading of sensor values. The decisions are a Verus-verified library;
the program around it (sockets, sysfs, `nvidia-smi`, the ksni tray, serde
and bincode) is plain Rust.

## Layout

- `src/` — the verified library.
  - `text.rs`: string helpers with exact specifications (`str::trim`,
    `split_whitespace`, `lines().next()`, unsigned `str::parse`, decimal
    formatting, joining).
  - `device.rs`, `caps.rs`: the supported-device list and the capabilities
    the tray works with (fan range, logo LED).
  - `comms.rs`: the daemon commands and answers, socket paths, socket setup
    and Set acknowledgement.
  - `fan.rs`: fan presets, preset selection and the fan header label.
  - `readings.rs`, `menu.rs`: the tooltip text and the tray menu model.
  - `poll.rs`: the per-cycle daemon poll as a state machine, click handling
    and the update tracker.
  - `power.rs`, `stats.rs`, `sysfs.rs`: energy counter deltas, the
    `/proc/stat` summary line, `nvidia-smi` output and sysfs values.
- `tests/` — tests run against the compiled library.
- `app/` — the tray program around the library: I/O, threads, serde/bincode
  copies of the protocol types, the ksni tray, and the floating-point
  arithmetic of sensor values.
