# wallclock

A wall-mounted clock and status display for a 2560 x 1600 panel driven
through DRM. Every few seconds it composes one frame: a wallpaper from the
Bing image archive (faded in and out at each five-minute cycle), translucent
panels, the time and date, room readings from SwitchBot thermo-hygrometers,
the current weather from OpenWeather, and the health of a server.

## Layout

- `src/` is the library, verified with Verus. It holds the pixel arithmetic
  (fixed-point source-over blending, fades, RGBA/BGRA conversion), the
  128-byte aligned frame buffers, rectangle fills and image drawing, the
  decisions of every periodic worker (when to run, when to fetch, what one
  display tick does), the weather-icon tables, request signing and URL
  building, and the error texts. Calls into outside crates (`aligned-vec`,
  `image`, `url` through `reqwest`, `hmac-sha256`, `base64`) go through small
  trusted functions whose contracts are stated in their doc comments.
- `tests/` runs the library on concrete values.
- `app/` is the program around it: the async workers, HTTP requests, the DRM
  device, text layout with cosmic-text, and settings loaded from TOML.

At run time the program reads its settings from `CONFIG_PATH` (default
`/run/secrets/settings.toml`), the weather icons from `ICONS_DIR` and the font
from `FONT_PATH`.
