# mipidsi

A generic display driver for TFT displays that implement the MIPI Display
Command Set, written in Verus: the command encodings, the initialization
scripts of the supported models, the geometry of drawing requests, and the
way the interfaces lay pixel data out are proved against their contracts.

## Layout

- `src/` — the verified library.
  - `dcs` — the DCS commands and their parameter bytes.
  - `options` — orientation, rotation, memory mapping, refresh and color order.
  - `models` — the initialization scripts of GC9107, GC9A01, ILI9341,
    ILI9342C, ILI9486, RM67162, ST7789 and ST7796.
  - `interface` — the `Interface` trait and the transfers it carries out; the
    buffered interface; the planning of SPI writes and of parallel bus latches.
  - `graphics`, `geometry` — clipping, row selection and buffer filling.
  - `test_image` — the drawing requests of the test image.
  - the crate root — `Display`, whose contracts state, over the record of
    transfers and errors that an `Interface` keeps, the transfers each drawing
    and configuration call is to make: on success all of them, on failure
    those before the first failed one and that one's error, and success on an
    interface whose calls all succeed. The record is kept by the interfaces of
    `src/` (the buffered interface, the mock interface); the SPI and parallel
    interfaces of `app/` leave it empty, so these contracts say nothing of
    what they send.
- `app/` — the glue to `embedded-hal` and `embedded-graphics`: SPI, parallel
  and hybrid asynchronous interfaces over devices and pins, initialization with
  a delay and a reset pin, and the drawing target.
- `tests/` — tests of the library on concrete values.
