# ble_page_turner

A touch pad on an ESP32 turns pages: each new touch sends "Page Down" to the
host connected over BLE as a HID keyboard.

- `src/` is the verified library: the touch threshold (`touch`), the
  debouncing main-loop decisions (`page_turner`), the HID descriptors and
  reports (`hid`), the LED's blink pattern (`led`), the GATT/GAP event handling and key strokes of the
  keyboard (`ble_hid`), and the bring-up sequence of the BLE stack
  (`startup`).
- `app/` is the firmware around it: ESP-IDF calls, callbacks, GPIO and
  sleeps, driven by the library's decisions.
- `tests/` runs the library on concrete values.
