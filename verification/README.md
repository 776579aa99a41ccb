# wangan_arcade_loader

A loader that runs the Wangan Midnight Maximum Tune 3 family of arcade games
on a Linux desktop, with its decision logic verified in Verus.

- `src/` is the verified library: the JAMMA switch word and shifter
  (`jamma`), the card printer protocol and the card reader's port
  (`card`), the HASP dongle's memory (`dongle`), the game version read from
  the ROM (`version`), file and command redirection (`redirect`), the
  configuration (`config`), key bindings and input state (`input`), the
  OpenAL jump patch (`patch`), the network address (`network`), the
  resolution patch's targets (`display`) and small text utilities (`text`).
- `app/` is the preloaded library around it: the hooks into the game, the
  libc overrides, SDL/GLFW/OpenGL, the TOML files and everything that
  computes in floating point.
- `tests/` runs the library on concrete values.
