# Sena

Sena is a context-aware desktop companion: a small pet that sleeps when the
session is locked, types along while a coding tool is in front, sways to
music and gets drowsy when the user steps away.

This crate holds its decision logic, written in Verus and proved against
contracts stated over mathematical models.

## Layout

- `src/` — the verified library.
  - `context`, `behavior`: the desktop snapshot and the behavior it resolves to.
  - `activity`: how idle time, foreground changes, keyboard pulses, session
    locks and media changes update the snapshot, and the motion-burst rules.
  - `package`, `validate`, `paths`, `text`: the pet package model, its
    animation lookups with idle fallback, path rules for assets and the
    manifest validation with its error messages.
  - `animation`, `render`: animation clips and their timing, interaction
    schedules, and the view that follows a context change.
  - `sprite`: frame decoding through the `image` crate and the cache that
    decodes each frame file once.
  - `motion`, `preferences`, `interaction`, `shell`, `platform`: window
    placement and dragging, saved preferences, speech bubbles, tray actions,
    and the small rules the Windows layer applies (key messages, startup
    registry values, UTF-16 text).
- `tests/` — tests that run the library on concrete values.
- `app/` — the program around the library: command line, reading and writing
  `pet.json` and preferences with serde, reading frame files into Slint
  images, and a headless run that feeds desktop events from standard input
  to the library's decisions.

Every law of the library is a public `proof fn` whose name starts with
`law_`, next to the functions it speaks of.
