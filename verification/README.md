# reznez

Parts of a NES emulator core, written in Verus and proved against their contracts.

- `src/apu`: the pulse, triangle, noise and DMC channels with their envelopes, sweep units,
  length counters and timers, and the mixer's channel selection.
- `src/cartridge`: iNES and NES 2.0 header parsing, ROM paths, and the header database (an XML
  file of known ROMs, read with `roxmltree`, with built-in tables of submapper numbers).
- `src/cpu`: the 6502 instruction table.
- `src/ppu`: PPU registers, addresses and scroll, pixel coordinates, colors and system palettes,
  the NTSC signal level selection, sprites and OAM, frames, frame buffers, debug buffers and PPM
  images.
- `src/mapper`: the MMC1 board kinds and the VRC2 and VRC4 register decoding.
- `src/memory`, `src/util`: CIRAM, read results, register ids, a circular buffer, and text
  parsing helpers.

`app/` is a small command line program around the library: it reads a ROM file, looks it up in
a header database file, builds a system palette from a `.pal` file and can dump a frame. The
floating point parts (audio mixing and filters, palette emphasis, YUV conversion) live there.
