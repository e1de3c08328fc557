# xd_engine — Vulkan backend

The engine's Vulkan path, split in two:

- `src/` is the verified library (Verus). It holds every decision the backend
  makes about the Vulkan API, with contracts: the SPIR-V of both shaders and
  the builder that assembles them (each shader stated word for word), the
  steps of filling a host-visible buffer and of creating the depth buffer,
  with what each failure releases, the mip pyramid and the exact sequence of
  barriers, copies and blits that uploads a texture (proved to leave every
  level readable by the shader), memory-type selection, queue-family choice,
  swapchain format, size and image count, the render pass and pipeline
  descriptions, sampler settings, the GPU mirror of the asset arenas and the
  draw list of a frame, the steps of a frame, and the keyboard state.
- `app/` is ordinary Rust around it: loading the Vulkan library, the C
  structures and function tables, the calls themselves, the window and event
  loop (winit, raw-window-handle), and the float arithmetic of matrices. It
  asks the library before every call and passes plain values both ways.

Modules of the library:

| module        | what it decides |
|---------------|-----------------|
| `vk_types`    | handles as 64-bit values, plain structures, constants, `VK_MAKE_API_VERSION` |
| `instance`    | validation layer and portability enumeration |
| `device`      | the first queue family, in device order, that draws and presents |
| `surface`     | the surface extension and creation route per platform |
| `swapchain`   | surface format, present mode, extent, image count |
| `memory`      | the lowest suitable memory type, and the error text when none is |
| `image`       | mip level count, layout-transition barriers, the upload plan |
| `upload`      | the steps of filling a buffer from the CPU: host-visible, coherent memory, and what a failure releases |
| `depth`       | the depth image's description and the steps of creating it in device-local memory |
| `descriptor`, `sampler`, `pipeline`, `sync` | fixed descriptions the device objects are created from |
| `shader`      | SPIR-V assembly; both shaders, word for word |
| `gpu_assets`  | the mirror of the asset arenas, descriptor rebuilds, draw calls |
| `frame`       | the steps of a frame: what follows each result, and when the frame ends |
| `input`       | the set of held keys |
