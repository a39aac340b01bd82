# qemu_fuzz_hooks

The bookkeeping of a fuzzer that runs an emulated arm64 program in process, under QEMU, verified
with Verus.

The emulated program believes that it maps and reads a file. The fuzzer hooks those system calls and
serves them from the current test case, so that no file is ever written; it aborts where the program
would end the process, and puts the processor's registers back before each test case.

- `src/filesystem.rs`: the test case as a file, served piece by piece.
- `src/hook.rs`: what becomes of each system call.
- `src/registers.rs`: saving and restoring the registers.
- `src/session.rs`: breakpoints, what is loaded first, how a session ends.
- `src/laws.rs`: what holds over any number of system calls and test cases.
- `app/`: the fuzzer itself, around LibAFL and its QEMU bridge.

The library rests on one unproved statement: that LibAFL's `BytesInput` hands out the bytes it holds.
