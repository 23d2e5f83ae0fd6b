# robot_hal

The decision logic of a hardware abstraction runtime, verified with Verus: how devices are
identified, configured and given back, how frames and errors of drivers are read, how a ring of
camera frames in shared memory is written and checked, and what a local broker trusts.

- `src/` is the library. Its functions state in their contracts what they return and change, and
  Verus proves it; what a call into another crate gives is stated where the call is declared.
  Each area has its module: `shared_memory`, `camera`, `can`, `socketcan`, `pcan`, `gpio`, `usb`,
  `serial`, `broker`, `windows_security`; `error`, `resource` and `text` serve them all.
- `tests/` runs the library, with the crates that it calls.
- `app/` is a broker program for Unix systems around the library: its arguments, files and sockets,
  and the calls into the drivers. The modules for libgpiod and V4L2 need those system libraries and
  are compiled with the features `linux-gpio` and `v4l2`.
