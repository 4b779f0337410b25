# aircard

Apple Wallet card skins and lock-screen passcode themes for an iPhone over
USB, with the rules that decide what is written to the device verified in
Verus.

- `src/` is the verified library: file naming and staging for the Books
  sync, batching, the steps of each handshake's write and of a whole
  flash (`batch`, `flash_run`), protected-file export and cleanup, the
  original-artwork backup, skin history, the AirTraffic handshake
  decisions and reports, the sync's property lists (encoded and parsed
  with the `plist` crate, `sync_plist`), keypad slicing and theme file lists, PNG
  preparation around the `image` crate, the interface texts, error
  messages, command-line parsing and the window's task state. The laws
  that span several functions are public proof functions (`lemma_*`).
  Where a result comes from the `image` crate, contracts speak of it
  through named results; see `image_skin` for what is and is not stated.
- `tests/` runs the library on concrete values.
- `app/` is the program: the egui window, the command line, file and
  device I/O, and the pan/zoom framing, which is floating-point geometry.
  The device transport modules it names (`afc`, `airlift`, `apple`,
  `device`, `passthm`, `scanner`) are not part of this tree.
