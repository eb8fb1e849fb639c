# mentacore

The verified core of the Mentacore boot path and kernel: the logic of the
UEFI bootloader and of the x86_64 kernel's low-level subsystems, written in
Verus with contracts, and a thin layer of ordinary Rust (`app/`) that performs
the firmware calls, port and register accesses, memory writes and drawing.

Library modules (`src/`):

- `boot_protocol` - the boot information handed from bootloader to kernel.
- `elf` - kernel ELF image: program headers, the page range the loadable
  segments occupy, and the copy plan for loading them.
- `loader_memory`, `handoff` - the bootloader's allocation sizes, display mode
  choice and the filling in of the boot information.
- `kernel_init`, `boot_state` - the kernel's checks on the boot information.
- `frames` - the physical frame map built from the firmware memory map, with
  frame 0, the map's own pages and the userspace image reserved.
- `gdt`, `idt`, `cpu`, `lapic` - descriptor tables, the task state segment
  and its 104-byte image,
  interrupt state, CPUID decoding, local APIC discovery.
- `ports` - the port write programs of the 8259 controllers and 8253 timer.
- `interrupts` - decisions of the exception and timer handlers, the saved
  trap frame, tick counters and TSC calibration.
- `display`, `format` - boot screen layout and the ordered list of its
  drawing operations, pixel placement, number text.

`app/` holds the bootloader program and the kernel's hardware glue.
