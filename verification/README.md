# esp32framework

A framework for IoT applications on the ESP32, split in two:

- `src/` is the verified library (Verus). It holds the logic that sits between
  a user's program and the microcontroller's drivers: the bookkeeping of
  peripherals and timer groups, the scheduler that lets many interrupts share
  one hardware timer, the state machines of digital inputs and of automatic
  PWM duty changes, the register codecs of the DS3231 and BME280 sensors, BLE
  ids, services, security settings and error mapping, the framing of byte
  arrays through interrupt-safe queues, UART configuration, HTTP headers, and
  the counters and messages of the on-device test runner. Functions carry
  contracts over spec models (the constructors of the notification channel,
  whose ends are standard-library values, say nothing of them), and the
  properties that span functions are stated and proved as `lemma_*` proof
  functions next to the code they are about.
- `app/` is the hardware side: drivers that own the peripherals through
  `esp-idf-svc` and `esp32-nimble`, run the update loop, and hand every
  decision to the library.
- `tests/` runs the library on concrete values, including simulations of the
  timer-driven PWM changes.
