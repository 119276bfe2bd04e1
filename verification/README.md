# g7pro

Tools for the GameSir G7 Pro 8K controller's private HID interface.

- `src/` is the library, verified with Verus:
  - `protocol`: the output reports (heartbeat, rumble) and the parsers of the
    0x12 status report (battery status, sticks, triggers and buttons);
  - `text`: the exact text that the tools print (battery lines, input lines,
    hex dumps, device banner);
  - `device`: the choice of the controller's vendor interface among the HID
    interfaces of the system;
  - `session`: the decisions of the battery, button and rumble sessions
    (heartbeat schedule, what to show for each report, time-out, reconnection).
- `app/` is the command-line program: argument parsing, HID I/O through
  `hidapi`, clocks, sleeps and printing.
- `tests/` runs the library on concrete reports.
