# omnibench

Control logic of a Bluetooth-operated test bench. A handheld remote (eight
keys on two NeoKey strips, an analog joystick) connects over BLE to a bench
server that switches eight relays and drives a stepper motor.

- `src/` — the verified library:
  - `protocol`: the wire messages (relay state byte, button and joystick
    events) with their encodings and round-trip laws;
  - `joystick`, `board`: mapping of the joystick's ADC reading to a signed
    axis position;
  - `stepper`: joystick value to pulse rate, direction, direct-drive command;
  - `client`: the remote's connection state machine (scan, connect, discover,
    enable notifications, disconnect);
  - `remote`, `colors`: the remote's key LEDs and key-press detection;
  - `bench`: what the server does with the remote's messages.
- `app/` — the firmware around it: Bluetooth, I2C, GPIO and ADC calls, the
  stepper's speed ramp (floating point) and the main loops.
- `tests/` — tests of the library, including exhaustive comparisons of the
  integer mappings with their floating-point formulas.
