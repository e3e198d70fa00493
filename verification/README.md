# xzual_tauri_lib

The logic of the XzualDPI desktop application, verified with Verus.

- `src/` is the verified library: the PAC scripts and the HTTP answers of
  the PAC server with their cache, the choice of the LAN address, the
  registry writes that set, clear and restore the system proxy (with a
  model of the settings key), the port scan, the command arguments and
  error texts, and the tray decisions.
- `tests/` runs the library on concrete values.
- `app/` is the Tauri application around it: windows, tray, sockets,
  threads, the registry and the processes it starts.
