# audio-plugin-dnd

Drag-and-drop protocol core for audio plugin editors, written and verified in Verus.

A plugin renders an export to a temporary file and lets the user drag that file from the
editor into a host, a file manager or another application. This library holds what such a
drag decides: gesture and export state, the drag queue, the XDND and native Wayland source
state machines, the search for a drop target, the inbound drop router, the drag chip, and
the texts that report all of it. Every function is proved to do what its contract says; the
few calls into the standard library, `serde_json` and `x11rb` that the proofs rest on are
wrapped, with their contracts, in `text`, `path`, `json` and `pointer`.

## Layout

- `src/` is the verified library.
  - `plugin`, `queue`, `payload`, `path`, `request`: exports, queued drags and their data.
  - `window`, `platform`, `backend`, `outbound`, `plugin_windows`: routes, starting a drag,
    lifecycle events and registries.
  - `desktop`, `target`, `target_laws`: the search for a drop target, as questions to the
    display server and conclusions from its answers.
  - `handoff`, `xdnd`, `xdnd_run`, `xdnd_drive`, `xdnd_laws`, `atoms`: the XDND source.
  - `native`, `pointer`: the native Wayland drag that takes over from XDND.
  - `data_device`, `state`, `runtime`, `foreign`: drags from a native Wayland window.
  - `router`: inbound drops for editors embedded in XWayland hosts.
  - `monitors`, `hyprland`, `json`: monitors and what the compositor reports.
  - `preview_render`, `pixels`, `icon`: drag chips and icons.
  - `shell`: Windows OLE and AppKit launchers.
  - `dnd`, `diagnostics`, `text`: reports and their texts.
- `app/` surrounds the library: connections to display servers and the portal, the clock,
  the environment and the disk, floating point, and process-wide values. The encodings of
  dragged files come from the host program, through `PayloadFormats`.
- `tests/` runs the library.

The launchers for Windows and macOS in `app/` need the `windows` 0.62, `windows-core` 0.62,
`objc2` 0.6, `objc2-app-kit` 0.3 and `objc2-foundation` 0.3 crates on those platforms.

## Conventions

Times are nanoseconds of a monotonic clock. Values that live as long as the process does
(the event bus, the drag ids, the registries) are passed in by `&mut`. What a drag does to
the outside is given back as a list of actions, in the order in which they are carried out.
