# glutin_egl

A verified library for an OpenGL backend that runs on EGL through glutin.

`src/` decides, and every decision has a contract that Verus proves:

- `version`, `text`: the version of EGL that a display reports.
- `display`: what a display offers, and whether its contexts need a pbuffer.
- `srgb`, `config`, `attributes`: how sRGB is supported, which configuration is chosen, which
  contexts are tried. The templates and attributes that glutin needs are built here.
- `creation`, `instance`: the way from a display to an instance, and from there to surfaces and
  adapters.
- `context`: the context of an adapter and the lock that keeps it current.
- `surface`: configuring a surface, acquiring its texture and presenting it.
- `gl`: the commands that the other modules list, with a model of what they do to the state of EGL
  and OpenGL. The laws of the library (proof functions whose names begin with `law_`) are stated
  over it.

`app/` makes the calls: it holds the locks, loads the OpenGL functions, carries out the commands and
hands back what came of the calls whose outcome matters.

`tests/` runs the library on concrete values.
