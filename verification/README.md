# ac_mini_model_viewer

A small Vulkan model viewer, written as a Verus library and a thin program
around it.

- `src/app.rs`: the window the viewer opens and its response to each window
  event.
- `src/graphics.rs`: the error type of the graphics backend.
- `src/graphics/vulkan.rs`: the renderer's plain state and the decisions of its
  setup and teardown: queue families, device selection, extensions, the swap
  chain's format, present mode, extent, image count and sharing, shader files
  and SPIR-V words.
- `src/graphics/vulkan/debug.rs`: validation layers and the text of debug
  messages.
- `src/graphics/vulkan/ash_api.rs`: the trusted contracts on the `ash` items
  the library uses.
- `app/`: the winit event loop and the Vulkan driver calls, which hand the
  driver's answers to the library and carry out its decisions.
