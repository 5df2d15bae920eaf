# styro

A render hardware interface over Vulkan, in two parts.

`src/` is a Verus library that holds the interface's rules, each with a
contract that Verus proves:

- `rhi`, `gpu_ptr`: the descriptions callers hand in, and handles to resources.
- `vk_map`: the Vulkan value each description selects (compare ops, blend
  factors, pipeline stages, layouts, buffer and image usage, memory placement).
- `heap`: the descriptor heap that files every buffer and image under a fresh
  handle, tracks image layouts, and gives resources back.
- `slot_heap`: a descriptor heap of numbered slots that reuses freed slots first.
- `command`, `queue`: what a command buffer records beside its commands
  (semaphores, pending layout transitions, presentation), render pass plans,
  command pool bookkeeping and submission plans.
- `swapchain`, `frame`: presentation objects, acquire semaphores and frame pacing.
- `device_select`, `descriptor`, `pipeline`, `image`, `texture`, `reflect`,
  `shader`: device and queue family choice, descriptor heap binding, push data,
  draws and copies, fixed-function pipeline state, image bounds, PNG textures
  and shader reflection.
- `laws`: properties that span several operations.

`app/` is the viewer program around the library: the window and event loop,
and the Vulkan calls themselves (through `ash`, `ash-window` and `vk-mem`),
which carry out what the library decides. Floating-point state (clear colors,
depth bias, sampler LOD) and the shader compiler process live there too.

`tests/` runs the library on concrete values and compares the Vulkan values it
picks with `ash`'s constants.
