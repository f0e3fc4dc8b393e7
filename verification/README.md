# catering_calculator

The verified core of a desktop catering calculator's window helper: it keeps the
calculator window snapped to the edge of a target window, and prepares pasting
a quote into the target application.

- `src/text.rs`: Unicode whitespace, trimming, substring search, lowercasing,
  quote escaping.
- `src/snap.rs`: snap configuration, the snap manager's state and reports, and
  the placement geometry, with its laws (the window stays on the monitor, sits
  `gap` beside the target when it fits, flips to the other side when blocked,
  and follows the target).
- `src/target.rs`: choosing the target window among the listed desktop windows.
- `src/paste.rs`: finding the target application, the window to activate, and
  the activation script.
- `app/`: the Tauri shell, the snapping thread, and the Win32 / Quartz calls.
