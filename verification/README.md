# smart_shift

A verified core for a Windows input-method switcher: it decides, from the line
around the caret, whether the IME should be in Chinese or English mode, and it
decides which changes of the foreground text state are caret relocations (to
act on) rather than typing (to ignore).

Layout:

- `src/` — the library, verified with Verus.
  - `classifier.rs`, `context.rs`: the caret line and the mode decision.
  - `watcher.rs`: snapshots, the relocation-versus-edit rule, the polling
    loop's state, and what to do with an emitted snapshot.
  - `capture.rs`, `adapter.rs`, `text.rs`: assembling text snapshots, UTF-16,
    per-application text cleanup.
  - `ime.rs`, `ime_switch.rs`: mode ↔ IME status mapping and the order of the
    write strategies.
  - `app.rs`, `numbers.rs`: command-line arguments and messages.
  - `config.rs`, `diagnostics.rs`, `logger.rs`, `service.rs`, `daemon.rs`,
    `tray.rs`: settings, start-up report, log file naming, the watcher
    supervisor, the pipe protocol and the tray window's message handling.
- `app/` — the Windows program around it: system calls, printing, files.
- `tests/` — tests run against the compiled library.
