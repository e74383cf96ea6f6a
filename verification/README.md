# ss13_status

The core of a Nintendo 3DS viewer for the status of Space Station 13 game
servers, verified with Verus.

- `src/colors.rs`: ANSI color codes and the SGR escape-sequence builder.
- `src/config.rs`: servers and the built-in server list.
- `src/status.rs`: the server status model and its color rules.
- `src/topic.rs`: framing of BYOND topic requests and reading of responses.
- `src/navigation.rs`: moving through the server list and the per-frame
  decision of the viewer.
- `src/display.rs`: the lines of the status screen and of error reports.
- `src/text.rs`: decimal numbers and string comparison.
- `app/`: the 3DS program around the library (console, input, network,
  configuration file, JSON and TOML decoding).
