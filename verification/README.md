# Aurora

Lighting control for the four-zone RGB keyboards of Lenovo Legion,
IdeaPad and LOQ laptops: a background daemon that owns the keyboard and
keeps effects running, a command-line client, and a health check.

The decisions are written in Verus and proved against their contracts;
the program around them does the reading, writing and waiting.

- `src/` — the verified library: effects and profiles, the settings file
  and its migrations, the IPC vocabulary, the daemon core (a state machine
  from requests and events to a new state and the work to do), the
  effect engine's plans and frames, the HID report encoder, the ACPI
  netlink parser, the battery probe, the health checks and their report,
  the command-line parsing, and what the desktop window shows and sends.
  `src/laws.rs` states properties that span several operations.
- `tests/` — tests of the library on concrete values.
- `app/` — the program: sockets, threads, the HID device, netlink and
  signal handling, and the JSON wire format.
