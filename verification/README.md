# Zunesha

A shared GPU device substrate: physical-device selection, queues, memory
placement and buffers for compute and graphics consumers that stand on one
device. The decisions are verified with Verus; the driver calls are made around
them.

## Layout

- `src/` is the verified library. It makes no driver call. An operation on a
  device is a value whose `command` names the next driver call and whose
  `resume` takes that call's outcome.
  - `device`, `queues`, `request`, `error`: the backend-agnostic interface and
    the stub that stands in where there is no device. `defaults` says what the
    interface's defaults promise on every device.
  - `epoch`: counts GPU work in flight, for runtimes with a moving collector.
  - `vulkan`: choosing queue families, devices, memory types and extensions;
    building a device; creating, reading and releasing buffers.
  - `vulkan::bringup_laws`, `vulkan::buffer_laws`, `vulkan::counting_laws`,
    `vulkan::lifetime_laws`, `vulkan::termination`: what whole operations
    promise.
- `app/` is the Vulkan backend: it performs the calls through `ash`, offers
  typed buffers through `bytemuck`, and releases what it made.
- `tests/` runs the library on a driver kept in memory.

## What is promised

- A device is picked exactly where some device computes. Graphics is never
  required; where it is preferred, a device without it is picked only where no
  device that computes has it.
- The queues of a built device are what the picked device's families allow:
  compute is on a dedicated family where there is one.
- Only extensions that the driver reports are enabled.
- Data that a buffer was created with is what a read gives back, in unified and
  in device-local memory, on a driver that keeps its own promises, as long as
  nothing else wrote to the buffer. Other work on the queues does not matter.
- A read of device-local memory sees the work that the compute queue was given
  before it, where no other queue works on the same memory.
- Releasing a buffer gives back everything that its creation took. The device
  may be released exactly when nothing made on it is left, which is so once
  every buffer is released.
- The tracker is quiescent exactly when every dispatch that was recorded as
  begun is recorded as completed. The device records its own staging copies. One
  whose wait failed stays counted until the next wait for the queue succeeds.
- A buffer whose size overflows is refused with an error.
