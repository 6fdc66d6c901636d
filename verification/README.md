# uno_r4_hal

A hardware abstraction layer for the Renesas RA4M1 on the Arduino Uno R4 (Minima and
WiFi), in two parts.

- `src/` is the library, verified with Verus. It holds the drivers' decisions and
  the register values they write: the clock tree and its bring-up plan, the
  module-stop bits, the `PmnPFS` words of each pin mode, the UART baud-rate solver
  and status handling, the I2C bit-rate solver, control words and transaction
  sequencing (how a transaction is cut into bus transfers, how each begins and
  ends, where a read arms its NACK and STOP, what a failed transaction does), the
  SPI bit-rate solver and frame handling, the PWM and timer prescaler solvers, the
  delay arithmetic and the ADC channel selection. Each public function states what
  it returns in its contract; the cross-function properties are proof functions.
- `app/` is the unverified part: register access through `ra4m1-pac` addresses and
  volatile pointers, the order in which each driver's bring-up writes the values
  `src/` computes, the polling loops and their timeouts, SysTick, and the
  `embedded-hal`, `embedded-hal-nb` and `embedded-io` trait implementations. It
  hands the library plain values (the register contents it read, the frequencies
  it was given) and carries out what the library returns.

`tests/` exercises the library on concrete values.
