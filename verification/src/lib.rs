//! The bookkeeping of a fuzzer that runs an emulated program in process, under QEMU.
//!
//! The emulated program reads its test case from what it takes for a file. The fuzzer hooks the
//! system calls by which the program maps, reads and unmaps that file, serves them from memory, and
//! puts the processor's registers back before each test case.
//!
//! - [`filesystem`]: the test case as a file, served piece by piece.
//! - [`hook`]: what becomes of each system call.
//! - [`registers`]: saving and restoring the registers.
//! - [`session`]: the breakpoints of the emulated program, what a session loads first, and how
//!   it ends.
//! - [`guarantees`]: how the results of each function relate to its arguments, in plain terms.
//! - [`laws`]: what holds over any number of system calls, test cases and register writes.

pub mod filesystem;
pub mod guarantees;
pub mod hook;
pub mod laws;
pub mod registers;
pub mod session;
