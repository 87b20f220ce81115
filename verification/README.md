# embassy-mspm0

Drivers for the TI MSPM0 microcontrollers, verified with Verus.

A driver is a plain value. A method that touches the hardware appends typed register accesses to a `Bus`,
in the order they have to happen, and takes what it needs to know of the hardware as readings. A method that
waits is a state machine: each poll takes fresh readings and says whether to poll again, to park until an
interrupt, or that it is done. Contracts therefore speak of the whole sequence of accesses, and the laws are
public proof functions next to the types they are about.

| Module | What it drives |
| --- | --- |
| `adc` | The converter: sample clocks, conversions and sequences, the temperature sensor |
| `comp` | The comparators and their reference DAC |
| `crc` | The CRC accelerator |
| `dac` | The 12-bit converter |
| `debugss` | The debug mailbox and its power events |
| `dma` | Channels, transfer checks and transfers in flight |
| `executor` | Which interrupt line an executor pends |
| `flash` | Erasing and programming, bank swaps, the sector write protection |
| `gpio` | Pins, pad functions, edge waits, wake from shutdown |
| `i2c` | The controller: bus timing, bursts, transactions, bus recovery |
| `bits`, `bus`, `mode`, `sysctl` | What they share |

`app/` implements the `embedded-hal` and `embedded-storage` traits over the library, and runs its state machines
as futures. It hands the accesses, in order, to a `Perform` implementation, and takes its readings from traits beside
it: a device crate implements both over its registers. `tests/` runs the library on concrete values.
