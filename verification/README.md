# mio_serial

The state machines behind a completion-based (COM) serial port for mio, verified with Verus.

A COM port is driven by overlapped reads and writes. Each operation works on memory that has
to stay in place until it completes, and its completion reaches the program through the event
loop, long after the call that started it has returned. The library decides, event by event,
what the caller of a port is told, which operation is issued next, which readiness is shown to
the event loop, and when the memory of a port may be freed. It makes no call into the operating
system itself: every method returns the step that is due, and the driver reports how it went.

* `src/from_raw_arc.rs`: counted blocks, and references that are taken up from an address.
* `src/ready.rs`, `src/binding.rs`: readiness sets, and what a port has shown of them.
* `src/error.rs`: I/O errors, as far as they are read.
* `src/windows.rs`, `src/windows/inner.rs`, `src/windows/block.rs`: ports that are read and
  written through vectors of buffers.
* `src/windows/laws.rs`, `src/windows/lifetime.rs`: what holds of such a port over many events.
* `src/windows/serial.rs`: ports that are read and written a whole buffer at a time.
* `app/`: the driver, with mio's traits and the Windows calls.
