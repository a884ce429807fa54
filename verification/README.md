# esp32_hal

GPIO and pin configuration for the ESP32, verified with Verus.

Every step that configures a pin (input or output set-up, pulls, drive
strength, alternate function, sleep-mode settings, routing through the GPIO
matrix, analog routing, digital reads and writes) is a function in `src/`
that returns the register operations carrying it out. Their contracts say
which register each operation acts on and what it does to each field; the
proofs show, among other things, that field writes keep every other bit,
that the set-up steps do what their documentation promises, and that the
configuration steps of two distinct pins never act on the same register bit
(with the one exception stated in `independence.rs`). Connecting a pin to a
peripheral input signal is not a step of the pin alone: it writes the routing
register of the signal, which any pin connected to that signal writes too.

- `src/bits.rs`: bit fields of 32-bit registers and read-modify-write updates.
- `src/registers.rs`: the registers, their field layouts and register operations.
- `src/pins.rs`: which GPIOs exist, can drive outputs, and have an RTC side.
- `src/gpio.rs`: pin traits, type states, drive strengths, alternate functions, signals.
- `src/config.rs`: the configuration steps of a pin.
- `src/digital.rs`: digital input and output of a pin.
- `src/independence.rs`: the register bits each pin owns.
- `app/`: type-state pin objects and the memory-mapped access that runs the
  register operations on the chip, with the `embedded-hal` traits.
