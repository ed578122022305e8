# Game Boy DMG emulator core, verified with Verus

`src/` is the emulator core: the SM83 processor (`cpu`, `alu`, `registers`), the memory
bus and its cartridge controllers (`memory_bus`, `mbc*`, `rom`, with the header summary in
`rom_text`), the picture processor
(`ppu`, `lcd`, `tiles`), the timer, OAM DMA, joypad, interrupts and the digital side of the
audio unit (`apu`), tied together by `emulator`. Each operation has a contract over spec
functions that state its effect exactly; `pub proof fn lemma_*` items state the laws that
relate operations (read after write, push then pop, register codecs, DAA on BCD values,
the OAM DMA schedule, ...).

`app/` is the program around the core: configuration file, file dialog, ROM and save files,
the SDL window and keyboard, frame pacing and autosave, and the floating-point audio mixer.

`tests/` runs the core on small hand-built cartridge images.
