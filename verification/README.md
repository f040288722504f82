# filefloat

FileFloat is a floating desktop file-search widget for Windows: a small ball
that docks and hides at the screen edges, expands into a search panel, and
searches with the Everything engine, the Windows index, or a walk over the
file system.

`src/` is the verified library, written in Verus:

- `geometry` — docking a window against a work-area edge, hiding it behind
  a thin strip, placing the expanded panel inside the margins.
- `runtime` — the shared window state and every decision that changes it
  (docking, the hide/reveal watcher, expanding and collapsing, dragging),
  each a transition with a stated invariant, and the laws that relate them.
- `text`, `json` — trimming, case folding, searching, PowerShell quoting, and
  the JSON document the search code reads.
- `search`, `queries` — search results, how their kind is settled, how the
  Everything engine's answer is read, and the requests sent to each engine.
- `shell` — the PowerShell scripts, registry edits and program invocations
  handed to Windows, and how their outcomes are reported.

`app/main.rs` is the Tauri program around it: windows, tray, commands,
watcher threads and every call to the operating system.
