//! Safe building blocks for PlayStation Vita homebrew: the error-code
//! conventions of the Vita kernel, the frame buffer layout, the protocol of a
//! lazily created kernel mutex, and the arithmetic of thread delays.
//!
//! Everything here computes on plain values; the kernel calls themselves are
//! made by the thin layer that wraps this library.

pub mod io;
pub mod framebuffer;
pub mod sync;
pub mod thread;
