//! A typed layer over the kernel's raw call interface for process operations.
//!
//! A call into the kernel takes a number that names the operation and up to
//! six machine words, and hands one machine word back. This library puts types
//! on both sides of that exchange:
//!
//! - [`conv`] encodes a typed argument into exactly one machine word, and
//!   decodes the word that comes back into a payload or an error.
//! - [`errno`] is the closed set of errors, with the code of each.
//! - [`reg`] holds a call as the dispatcher takes it: the name of the
//!   operation, the way the call may be ordered against memory accesses, and
//!   the words.
//! - [`process`] and [`fd`] hold the values that the operations take and
//!   return, each with its raw form.
//! - [`syscalls`] holds the operations. Each one encodes its arguments into a
//!   call and decodes the raw outcome of that call. Where an operation has
//!   more than one way to ask the kernel, it chooses between them.
//!
//! The transfer of control itself lies between encoding and decoding and is
//! not part of the library: the caller hands a [`reg::Call`] to the dispatcher
//! of its architecture and brings the outcome back. Everything here is
//! therefore a function of plain values, and is proved to return what its
//! contract says.

mod abi;
pub mod conv;
pub mod errno;
pub mod fd;
pub mod process;
pub mod reg;
pub mod syscalls;
