# booster_emulator

Emulator of a booster test bench: a cart is precharged, launched, boosted
through a booster section, braked, and stopped, while clients receive
telemetry and event messages.

- `src/` is the verified library: the phases of a test run and the link
  voltage (`structs`), the operator commands (`commands`), the
  decisions of each simulation tick (`physics`), the event messages
  (`messages`), and properties that span them (`laws`).
- `app/` is the server around it: the HTTP command API (port 8001), the
  WebSocket telemetry stream (port 5001), the JSON forms of the library's
  types, and the real-valued kinematics and mass of the cart.
- `tests/` exercises the library on concrete runs.
