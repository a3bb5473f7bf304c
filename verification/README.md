# esp_hal

A hardware abstraction layer for the ESP32-C3, with its drivers' effects on
the hardware stated and proved with Verus.

Each peripheral's registers are a plain value of a type of their own
(`UartRegs`, `SystimerRegs`, `InterruptCoreRegs`, ...), handed to the driver
calls that read or write them, so that every contract says exactly what a
call does to the hardware.

- `src/`: the verified library: clocks and peripheral clock gating, GPIO
  routing, interrupts, system and group timers, UART, eFuse, the printer,
  the embassy time driver and its timer queue, the RTOS queue, the heap
  allocator's regions and statistics, build-time configuration, the logger's
  settings, the application descriptor, and the exception decoding.
- `app/`: what is left to a program: the build script's environment and
  output, the global allocator, the asynchronous UART's futures, the
  logger's installation, and printing.
- `tests/`: the library's tests.
