# corosensei for Windows ARM64

Stack switching for coroutines on Windows ARM64, with its effect on registers, stacks and
the Thread Environment Block stated and proved.

- `src/` is the library. Every routine of the switching code is a function on a machine:
  the registers that a switch touches, the fields of the Thread Environment Block that
  describe the current stack, and memory. `src/laws.rs` proves what holds of the routines
  together, such as that a context that switches to a coroutine gets its stack, its
  registers and its Thread Environment Block back.
- `tests/` runs the routines on concrete stacks.
- `app/` applies the library to a real thread. It moves bytes between the address space and
  the library, and holds the instructions themselves.
