# sunrise_lib

A driver for Senseair Sunrise CO2 sensors on an I2C bus, verified with Verus.

The driver's decisions live in `src/` as a machine that the caller drives:
each operation (`init`, `get_config`, `co2_measurement_get`, ...) returns the
first piece of bus work to do, an `Action`; the caller carries it out and
hands the result back to `Sunrise::advance`, which returns the next action,
until the action is `Action::Finished` with the outcome.

- `src/registers.rs`: the register map, and the decoding of the error status
  word (`ErrorStatus::from_bits`).
- `src/types.rs`: the configuration, state data, measurement and product type.
- `src/codec.rs`: big-endian encoding of register values.
- `src/program.rs`: each operation as a program of register reads and writes.
- `src/senseair.rs`: the driver machine (`Sunrise`), its model and its laws.
- `src/device.rs`: the sensor's register file as seen over the bus, and what
  the operations read back of what they write.
- `src/bounded.rs`: the fixed-capacity buffers of `heapless` that write frames
  and product codes are built in.
- `app/lib.rs`: the driver on `embedded-hal`, which owns the bus, the timer and
  the pins, and runs the machine.
- `app/linux.rs`: the driver on a Linux host through `linux-embedded-hal`
  (sensor on `/dev/i2c-1`, enable pin on GPIO 27, not-ready pin on GPIO 17).
