# qemu_hooks

Hooks on a guest that runs in an emulator: on instructions, edges, blocks,
memory accesses, comparisons, system calls, new threads and crashes. A hook is
a function, a closure, or a raw callback that the emulator calls directly.

- `src/` is the verified library. It decides which callback the emulator is
  given for each hook, keeps what the callback needs to find the hook, and says
  which hook to run when a callback fires. `model.rs` describes the hooks of a
  process as mathematical values, `instance.rs` keeps track of the one
  `QemuHooks`, `qemu_hooks.rs` sets it up and installs hooks, `registry.rs` finds
  them again, and `laws.rs` states what holds of all of it.
- `app/` ties the library to an emulator: it erases the signatures of functions
  and closures, holds the hooks of the process, and runs the callbacks.
- `tests/` runs the library against an emulator that only hands out ids.
