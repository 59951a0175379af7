# tiedye

Renders a WGSL shader into an RGBA image on the GPU, optionally sampling the
first of a list of input images, and writes the result as PNG.

`src/` is the verified library:

- `renderer` plans a render (`plan_render`): the output size (that of the first
  input image, or 512 by 512), the output and input textures, the sampler, the
  uniform `Params { width, height }`, the bindings of group 0, the pipeline and
  the layout of the read-back buffer.
- `renderer::output` computes the read-back row stride (rows rounded up to the
  256-byte copy alignment) and strips that padding from the mapped buffer
  (`read_image`); its proof functions show that the rendered rows come back
  exactly, whatever the padding holds.
- `raster` is the RGBA8 image type and its PNG encoding.
- `cli` holds the command-line arguments and decides what a run does and where
  the PNG goes.

`app/` is the command-line program: argument parsing, file and terminal I/O,
and the GPU calls that carry out a plan.
