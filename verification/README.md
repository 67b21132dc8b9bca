# tww (Tokio + WebGPU + Winit)

An opinionated library for applications that use `tokio`, `wgpu` and `winit`. You interact with
`winit` exclusively through async/await, so that you never have to worry about event loops.

The crate has two parts.

- `src/` holds the decisions: what a window's worker does with each command, where events go, when
  a watcher has news, how a run ends, what the user interface renderer keeps. It is written in
  Verus. Each function states what it does in a contract, and Verus proves it. What holds over
  any run of commands for a window is in `src/closing.rs`.
- `app/` holds what surrounds them: the event loop, the tasks, the graphics device and the public
  async interface.

`src/` reads and writes `tokio` channels. Other tasks share them, so a contract says of a poll what
holds whatever the others do, and the functions that take the outcome of a poll say exactly what
follows from it. What a worker writes to its channels goes through outlets that keep a ghost record,
so a contract says exactly what a step has put to each channel. The few items that are believed and
not proved name the `tokio` function that they stand for.

`tests/` runs the library against real channels.
