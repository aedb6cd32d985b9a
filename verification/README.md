# pipewire-yolo-client

A client that captures a window of a KDE Plasma desktop: it asks the desktop
portal for a window, opens a PipeWire stream on the node the portal starts,
and reads the frames of that stream.

- `src/` is the library, verified with Verus: the SPA values and the stream
  parameters a capture stream negotiates (`pod`, `spa`, `media`,
  `stream_builder`, `stream_setup`), the flags (`flags`), the frames read from
  buffers (`video`, `frame`), and the decisions taken on the answers of the
  portal and of KWin's window runner (`portal`, `windows`, `text`).
- `tests/` runs the library on concrete values.
- `app/` is the program around it: D-Bus proxies, the PipeWire connection and
  its callbacks, logging and files.
