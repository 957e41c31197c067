# uefi_model

UEFI in Rust, verified with Verus.

- `src/` is the library. Every function in it is verified except six small
  wrappers around outside calls, whose contracts are trusted: `push_char`
  (`String::push`), `slice_addr` and `vec_addr` (the address of a slice or
  vector), `vec_capacity` and `vec_reserve_exact` (`Vec::capacity` and
  `Vec::reserve_exact`), and `parse_items` (`syn`'s parser). Its modules:
  - `status`, `error`: UEFI status codes and the errors they stand for.
  - `buffer`, `align`: buffers that UEFI functions write into, and alignment
    arithmetic.
  - `guid`, `usb`, `http`, `console`, `pool_string`, `shared_box`, `table`,
    `rng`: protocol data and small helpers.
  - `text`, `device_path_text`, `logger`: text formatting — device paths as
    text, and the logger's decorated lines.
  - `boot_services`, `runtime_services`, `memory`, `firmware`: the stub
    firmware that runs the test runner on the host: the handle database,
    events, the memory map, variables, page and pool allocation, and the
    start-up sequence.
  - `runner`: the test runner's checks that run against the firmware.
  - `xtask`: the developer tool's decisions — which cargo and QEMU command
    lines it runs, when a job goes on to its next step, and the check of the
    raw bindings.
- `app/` is the developer tool's program: option parsing, running commands,
  the file system, and the `log` front end.
- `tests/` exercises the library on concrete values.
