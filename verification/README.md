# psp2

Safe building blocks for PlayStation Vita homebrew, verified with Verus.

- `src/io.rs`: kernel error codes (`Error`, `cvt_p`, `cvt_nz`) and the
  progress of writing a string through a file that accepts partial writes.
- `src/framebuffer.rs`: the supported resolutions and the CDRAM layout of a
  frame buffer.
- `src/sync.rs`: the protocol of a kernel mutex that is created on first use.
- `src/thread.rs`: rounding a delay up to whole microseconds.

`app/` makes the kernel calls (memory blocks, display, mutexes, threads, the
C library's files) around these checked pieces.
