# codex_installer

A Windows installer for the Codex desktop application and a companion tool
(Codex++ or CC Switch), with self-update. The decisions it takes are a Verus
library, proved against their contracts:

- `src/assets.rs` – which download to take: the installer of this application
  for an architecture, the Codex++ and CC Switch installers from their update
  manifests, the digests that releases publish, the fixed Microsoft and OpenAI
  downloads.
- `src/version.rs` – semantic versions (through the `semver` crate) and whether a
  release is newer.
- `src/update.rs` – update information, the checks before an update is
  downloaded, update progress.
- `src/digest.rs` – SHA-256 checks of downloads (through `sha2` and `hex`).
- `src/control.rs` – which installation run is live; starting and cancelling runs.
- `src/flow.rs` – an installation run as a state machine from events to actions.
- `src/install.rs` – the reports, download windows and installer polling of a run.
- `src/detect.rs` – finding Codex, the companion tools and the Visual C++ runtime.
- `src/launch.rs` – starting installed programs.
- `src/text.rs`, `src/error.rs` – character-level helpers and error messages.

`app/` is the desktop shell (Tauri commands, HTTP, processes, registry, files)
that performs the work the library asks for. `tests/` runs the library.
