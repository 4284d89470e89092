# diagnostics

An interactive console that reports on a computer: operating system and
motherboard, processors, memory, graphics adapters, storage, network
interfaces, the busiest processes and a debug context.

* `src/` is the library, verified with Verus. It lays out every screen from
  plain values: byte sizes (`units`), numerals and padding (`text`), usage
  bars (`bar`), coloured segments (`paint`, through the `colored` crate),
  the report screens (`system`, `cpu`, `memory`, `gpu`, `storage`,
  `network`, `tasks`, `debug`), the menu screen (`console`) and the menu's
  decisions (`menu`).
* `app/` is the program: it reads the machine through `sysinfo` (and, on
  Windows, through WMI), works out the floating-point load figures, runs the
  menu loop and prints what the library lays out.
* `tests/` exercises the library on concrete values.
