# acontrol

Access control for a door, on a Raspberry Pi: MIFARE cards through a PN532 or
MFRC522 reader, fingers through a GT521FX sensor, key fobs through Bluetooth LE,
with a NeoPixel ring and a buzzer to answer, an SQLite list of authorized cards
and a small web API to authorize, restore and list cards and to enroll fingers.

## Layout

- `src/` is the library, verified with Verus:
  - `system.rs`: the states of the system and what it decides when a card, a
    finger or a device shows up; what each answer tells the user. Where a
    decision needs the drivers (handling a card, starting or shutting down the
    drivers, enrolling a finger), it names the call to make and its arguments,
    and takes the driver's answer back.
  - `server.rs`: the routes of the web API and the answer to each request.
  - `nfc/`: the PN532 frames over SPI, the MFRC522 frames and registers, and
    the MIFARE block plans (what a write puts where a later read finds it).
  - `fingerprint/`: the GT521FX packets and the sensor's watch loop.
  - `display/`: the NeoPixel animations, frame by frame.
  - `audio/`: the melodies of the buzzer.
  - `log.rs`, `persist.rs`, `bt.rs`, `service.rs`, `text.rs`, `bytes.rs`: log
    lines, card records, Bluetooth presence, and the text and byte helpers.
- `tests/`: tests of the library on concrete values, with drivers in memory.
- `app/`: the program: options, the hardware drivers (SPI, GPIO, serial,
  ioctl, SQLite, BlueZ), the threads that watch the readers, and the web server.
