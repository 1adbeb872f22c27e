# cw_adapter

Verified decision logic of a CW (Morse code) paddle interface and stand-alone
keyer for RP2040/RP2350/ESP32-S3 boards.

* `src/` — the library, written in Verus and proved:
  * `debounce` — integrating contact debouncer, with its settling and
    glitch-rejection laws;
  * `common` — launch-mode selection and the keyboard, gamepad, serial-state
    and MIDI reports of the paddle interface;
  * `esp32s3_common` — the ESP32-S3 variant (serial and MIDI only, MIDI kept
    in step with the host across failed writes);
  * `keyer_app` — MIDI control-change settings, command buttons (speed and
    mode) and the key-line output of the keyer;
  * `sidetone` — PWM parameters of the sidetone buzzer.
* `app/` — firmware glue for the RP2040 keyer (embassy tasks, USB-MIDI,
  pins, PWM sidetone) that samples the hardware, calls the library and
  performs what it returns, plus the paddle-interface loop and USB
  configuration for the RP builds' keyboard, gamepad and MIDI reports.
* `tests/` — tests of the library on concrete values.
