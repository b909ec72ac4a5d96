# hwprobe

Cross-platform hardware detection for local AI: RAM, GPU(s), VRAM, unified
memory and memory kind, on Windows, macOS and Linux.

- `src/` is the verified library. It interprets what the operating system
  gives (sysfs files, DXGI adapter descriptors, Metal device data,
  system_profiler and PowerShell output), queries NVML and the RAM size, and
  combines the probes' results. Its functions carry Verus contracts, except
  the small trusted wrappers around serde_json, NVML and sysinfo calls,
  whose documentation says what is and is not claimed of them.
- `app/` is the `hwprobe [--json]` program: it performs the reads that only
  the operating system can do, hands them to `hwprobe::detect`, and prints the
  result (with serde for `--json`).
- `tests/` exercises the library on concrete inputs.
