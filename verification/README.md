# enki

GPU kernels written as Rust functions: a shader front end that reads kernel
signatures and bodies, translates them to Slang, plans the host-side calls and
caches compiled SPIR-V; and a compute and graphics runtime on Vulkan.

## Layout

- `src/` — the verified library (Verus). Every public function states its
  result in `ensures`, over spec functions of the same module.
  - `ast`, `ir`, `error`, `text`: syntax values, the intermediate
    representation, error values and string building blocks.
  - `parse`: struct layouts and kernel signatures from their syntax.
  - `translate`, `intrinsic`: kernel bodies to Slang statements, with the
    math intrinsics.
  - `slang`: the complete Slang source of compute, vertex and fragment kernels.
  - `emitter`: the plan of the host-side function of a compute kernel.
  - `cache`: cache directory and file names, source hashes, and the
    compilation as a state machine whose disk and process work the caller does.
  - `memory`, `descriptor`, `ring`, `device`, `swapchain`, `engine`: the
    decisions of the GPU runtime (allocation requests, access checks, upload
    plans, bindless descriptors, command-ring pacing, device and queue choice,
    swapchain parameters, frame pacing, SPIR-V words).
- `app/` — the unverified shell: the macro entry points over token streams,
  serde records of struct layouts, the compiler driver, and the Vulkan calls.
  It asks the library for every decision.
- `tests/` — tests of the library on concrete values.
