# qliphoth_native

The native runtime behind Qliphoth's desktop targets: windows, an element
tree, event listeners and dispatch, timers and animation frames, focus, a
software framebuffer, CSS value parsing, and a clipboard with arboard,
Wayland and X11 backends.

`src/` is the library, written in Verus.  Each operation states in its
contract what it does to a mathematical model of the runtime (sequences,
keyed tables and views of every type), and Verus proves the code against
it.  `src/laws.rs` holds the properties that relate several operations
(what a read of the runtime's own records gives back of a write, what a
removal leaves, in which order events come out, which text a clipboard
commit hands to the system).  What the system clipboard itself then holds
is the system's: the library records, as ghost state, each text it hands
over and to which selection, and states that record exactly.

`app/` is the C interface and everything that sits outside the proofs:
pointer handling, the layout engine (taffy), text shaping (cosmic-text),
floating-point styles and rendering, the GPU window loop (winit, wgpu) and
the clipboard connections to the Wayland compositor and the X server.

`tests/` runs the library on concrete values.
