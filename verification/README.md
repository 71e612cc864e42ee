# ocl_image_resizer

Resizes images on an OpenCL device, from the command line or as an HTTP
service (`GET /resize/{uri}/{w}x{h}`).

- `src/` is the verified library (Verus):
  - `decimal`: decimal rendering of integers and `u32` parsing with the
    semantics of `str::parse::<u32>`, with the law that parsing reads back
    what rendering writes;
  - `elapsed`: the elapsed-time text (`734 ns`, `12 µs`, `98 ms`, `3.07 s`,
    `42 s`) and the law that its figure is truncated, never rounded up;
  - `raster`: RGBA8 images whose bytes always cover the pixel grid, and
    their exchange with the `image` crate;
  - `resize`: the host side of a device resize (source upload, zeroed
    destination, work size, result image);
  - `service`: path parameters, decoding and encoding, and the reply of the
    HTTP service for each outcome.
- `app/` is the program: argument handling, files, the OpenCL device work
  (the `ocl` crate needs the system's OpenCL loader at link time), and the
  actix HTTP server.
- `tests/` exercises the library on concrete values.

The OpenCL kernel source (`ocl-resizer-kernel.cl`) is read at run time and
is not part of this repository.
