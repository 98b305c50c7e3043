# AI voice dictation: verified core

A self-hosted push-to-talk dictation system: a keyboard interceptor signals
the client daemon, which records audio and streams it over a WebSocket to a
GPU server running Whisper; the transcript comes back and is typed or copied
into the focused window.

- `src/` is the library, verified with Verus: the hotkey recognisers
  (`hotkey`), key names (`keys`), the server's configuration and device
  probing (`config`), the inference worker's state (`worker`), the admin
  requests (`admin`), the WebSocket session (`stream`), the client's
  connection logic (`network`), its configuration file (`client_config`),
  the daemon's decisions (`daemon`), the tray's presentation (`tray`), and
  the text handling they share (`text`).
- `app/` is the program around it (`ai-voice server | daemon | interceptor |
  hold-interceptor`): sockets, HTTP, GTK, the tray service, subprocesses and
  the Whisper engine.
- `tests/` runs the library on concrete inputs.
