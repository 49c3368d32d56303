# diene

A small game-engine core with machine-checked contracts.

- `src/` is the verified library (Verus): texture, mesh, material and scene
  data with their invariants; the stopwatch; application naming and backend
  selection; the application host's event decisions; shader request checks
  and SPIR-V word decoding; error reports; and the Vulkan renderer's
  decisions: API versions, queue families, device choice, surface and
  swapchain parameters, frame pacing, pipeline names and caches, GPU data
  layouts, draw lists, uploads and mip chains.
- `tests/` exercises the library on concrete values.
- `app/` is the sandbox program: logging, the window and event loop, file
  reading, floating-point scene construction, and the Slang calls. It sets
  up the Vulkan instance, surface, device, swapchain, allocator and command
  pools using the library's version check, device and queue choice, surface
  configuration and swapchain plan. Its renderer does not yet draw: the
  library's frame, draw-list, upload, layout and pipeline decisions have no
  caller there.
