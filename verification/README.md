# ironaccelerator

Verified host-side logic of a GPU/accelerator driver substrate (CUDA, Direct3D 12
and Xilinx FPGA backends), written in Verus.

The driver and runtime calls themselves (CUDA driver, cuBLASLt, cuDNN, NVRTC,
DXGI/D3D12 COM calls, the Xilinx runtime) are made by the embedding code; the
library decides what to call and with which values, and proves those decisions
against their contracts:

- `pool`, `pinned` — size classes and recycling bookkeeping of the device and
  pinned-host buffer pools.
- `copy`, `memory`, `launch`, `streams`, `handles` — copy-path selection, the
  staging ring, wide host copies, device views, launch geometry, stream
  priorities, round-robin stream pools, per-device handle caches.
- `kernel`, `kernel_cache` — source hash, compiler flags, include search
  path, on-disk cache names, and the in-process cache of compiled modules.
- `args` — element types for device memory and kernel-argument slots.
- `backend`, `types` — capability derivation and the workload planner.
- `attention`, `fp8`, `fp8_gemm`, `moe`, `blas` — attention strategy and
  fused-attention graph, FP8 recipes and GEMM configuration, the
  mixture-of-experts launch plan and per-expert schedule.
- `observe`, `profile` — counters and the profiler's event buffer with its
  Chrome-trace and Prometheus renderings.
- `dx12`, `fpga` — adapter qualification, ordinals, descriptors, checks and
  the root-signature description.
- `compat`, `error`, `text` — small shared vocabulary.

`app/` holds the code around the library: runtime loading of the Xilinx and
Direct3D 12 libraries, environment and file-system access for the kernel
cache, clocks and locks for the counters and the profiler, and the
floating-point values.
