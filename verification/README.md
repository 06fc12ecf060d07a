# cava

Window configuration for the `cava` visualizer, verified with Verus.

- `src/` is the verified library:
  - `text` — the string operations the parsers use (trimming, splitting,
    ASCII case folding, reading decimal `u32`s), each stated over `Seq<char>`;
  - `ini` — the calls into the `configparser` crate, with what each is
    trusted to do;
  - `config` — the window settings, their defaults, reading them from an
    INI text, and the window attributes derived from them;
  - `cli` — reading command-line arguments one at a time;
  - `style` — fill and stroke styles of shapes;
  - `external_event` — events for the event loop, and which file changes
    are passed on.
- `app/` is the program around it: process arguments, files, the file
  watcher thread, the `winit` window and `vello` rendering, and the
  floating-point camera and shapes.
- `tests/` runs the library on concrete inputs.
