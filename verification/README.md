# esp_fan

Firmware for an ESP32-C3 fan controller: a resistor ladder of switches is read
through the ADC, decoded to a switch value, and turned into a PWM signal on the
RMT peripheral; an HTTP server answers `/healthz`, `/pausez` and `/metrics`.

- `src/` is the verified library (Verus): the range-to-domain mapping, the PWM
  configuration and pulse codes, switch decoding and the listener's decisions,
  the fixed-size response buffer, request routing and handling, the WiFi
  upkeep cycle, and the Prometheus counters.
- `app/` is the firmware around it: chip and radio setup, the async tasks, the
  nanofish server adapter, and the floating-point statistics.
- `tests/` runs the library on the host.
