# unienc

The core of a video and audio encoder plugin for Unity, verified with Verus.

- `src/` is the library.
  - `buffer`: byte buffers handed out under a common size limit; `handle` is the counted length
    by which the pool learns that a buffer is gone.
  - `error`, `ffi`: errors, and what the callbacks of the C interface are called with.
  - `mux`, `encoding_system`: the FFmpeg command line, the pipes, and what goes into them.
  - `metal`: the rules of the blit that brings a Unity texture into a pixel buffer: the plugin's
    set-up, the triangle that is drawn, the pool of pixel buffers, and the course of a blit.
  - `graphics_event`: work that is handed to the render thread.
- `tests/` runs the library.
- `app/` is the plugin around it: raw pointers and callbacks, Unity's entry points, the pipes of
  the FFmpeg process, and the calls into Metal. Its Metal part is built on Apple platforms only.

The library makes none of those calls itself. Where it needs one, it either takes it as a closure
(`FFmpegMuxer::new`, `SharedTexture::new`) or says what is to be done next and is told how it went
(`InputSteps::next`, `Blit::advance`).
