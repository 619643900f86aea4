# titan_core

The verified core of a small game engine built on Vulkan.

`src/` holds the engine's decisions, each with a contract proved by Verus:

- `window`: window sizes, the window's event loop responses, the game's callback trait.
- `error`: the engine's error value and how it is shown.
- `instance`: versions and layers the Vulkan instance is created with, the window title.
- `device`: queue family choice, device suitability and score (raw Vulkan values),
  the queue families and extensions of a new logical device.
- `selection`: choice of the physical device and of its queue families, depth format.
- `swapchain`: format, present mode, extent, image count and sharing of the swapchain.
- `frame`: the passes of a frame and the render loop's reaction to acquiring and presenting.
- `ui`: index data, the font texture's upload and pixel layout.
- `debug`: levels and wording of validation messages.
- `shader`: decoding of SPIR-V code.
- `pipeline`, `command`, `derive`: smaller checks; `registry`: the keyed registries of Vulkan objects and their traits.
- `vk`: the raw Vulkan values read from `ash`.

`app/` talks to Vulkan (`vulkano`, `ash`), to the window system (`winit`) and to the
logger, and holds the floating-point scene data.
