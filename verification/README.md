# presence_daemon

The native half of a presence layer: it holds Gaussian splat clouds, keeps a
registry of live presences, answers proposals over a Unix socket, captures the
screen and a webcam, and shows a looking-glass overlay on a Wayland desktop.

The decisions are a library that is verified with
[Verus](https://github.com/verus-lang/verus), but for the six items listed under
"What is trusted". What talks to the machine is an ordinary Rust program around
it.

## Layout

`src/`, the verified library:

- `actors/`: Scene Memory, Control and Presence; the readers for `.splat` and
  `.ply` files; the byte layout of what the GPU reads; and under `ingress/` the
  screen and webcam clients
- `pipeline.rs`: what the splat pipeline is made of, which calls set it up and
  tear it down, and what its buffers hold
- `registry.rs`: where held clouds stand in the splat buffer
- `protocol.rs`, `socket.rs`: proposals, their answers, and the framing of
  lines
- `vulkan.rs`: which device, extensions and memory are used, and how a captured
  DMA-BUF becomes an image
- `overlay/`: the layer surface, its swapchain, its feeds, its draws and the
  daemon's loop
- `bytes.rs`, `single.rs`, `text.rs`, `named_map.rs`: words in bytes, correctly
  rounded single-precision quotients, text and a map by name

`tests/` runs the library on concrete values. `app/` is the program: `main`, the
device, the compositor, the socket, the camera and the files.

## How it is stated

Numbers that are floats on the GPU are carried as the bit patterns of IEEE-754
singles. Where a decision alternates with outside work, it is a state machine: a
`begin` gives the first action, and each `step` takes in what happened and gives
the next one. Functions whose names begin with `law_` state what holds across
several calls.

## What is trusted

The proofs rest on these declarations, which Verus believes:

- `String::push` and `std::str::from_utf8`, with the type `Utf8Error` as
  `ExUtf8Error`, in `text.rs`
- `read_spv` in `pipeline.rs`, which calls `ash::util::read_spv`
- `from_utf8_lossy` in `socket.rs`, which calls `String::from_utf8_lossy`, and
  the name `utf8_lossy` for what that gives

## Running

The shaders are read at start-up, as SPIR-V, from the directory that
`PRESENCE_SHADERS` names, or else from `shaders`: one file `<name>.spv` for each.
The daemon needs a Vulkan driver and a compositor that speaks
`zwlr_layer_shell_v1`. It listens on
`$XDG_RUNTIME_DIR/pachakutech/presence.sock`, one JSON object to a line.
