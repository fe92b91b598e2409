# aria2c-gui-rs

A desktop front end for the aria2c download manager: a tray icon, the
aria2c daemon with its JSON-RPC interface, desktop notifications for
finished downloads, and a small web interface served on the loopback
address.

`src/` is the verified library (Verus):

- `text` – decimal rendering of port numbers, with its read-back law.
- `tray` – the tray protocol's messages and the session that drives the
  helper program.
- `menu` – the tray menu with its base64 icon (and the decoding law), the
  reaction to clicks, and the addresses opened and bound.
- `aria2c` – the daemon's command line, the RPC request, and the watcher
  that announces each finished download once.
- `api` – the file actions of the web interface and their answers.
- `archive` – the cache directory, and the extraction of a zip archive entry
  by entry.

`app/` is the program around it: threads, processes, sockets, the web
server, JSON and notifications.
