# squeak

Configure Keychron mice on Linux over raw HID: DPI presets, polling rate,
sensor options, button remaps, macros, profiles and factory reset. Every
write is read back and confirmed before it is reported as done.

The library (`src/`) is verified with Verus:

- `hid` — the transport's error type, the `Hid` command-channel trait with
  its model (the log of exchanges, each request with its reply), frame
  layout and acknowledgement checks, the reply deadline, and the parsing of
  sysfs `uevent` files and report descriptors.
- `proto` — the device protocol: the settings block decoder and one module
  per setting (DPI, polling, sensor, buttons, macros, profile, system, info).
  Each operation states the exact exchanges it makes and how the replies
  decide its result; each write states its read-back.
- `worker` — what the device worker does for each UI command, down to the
  protocol operation it runs and the refresh read after it.
- `app` — the terminal app's state and its reducer (`App::update`,
  `App::apply`), with the laws it keeps, and the text of the footer and of
  the sensor screen's rows.
- `watch`, `update`, `identify`, `bridge`, `text` — hotplug decisions, the
  firmware-update lookup, button identification, the desktop front end's
  event payloads, and string rendering.

`app/` is the terminal program around it: the hidraw device, the worker
thread, the netlink hotplug socket, the HTTP request, and the ratatui UI.

Behaviour worth knowing:

- Reply deadline: the read loop polls in slices of at most 200 ms, rounded
  up to whole milliseconds and never 0, and gives up with a timeout once 1 s
  has passed, however far past it the clock already is.
- Restoring a button's default confirms the read-back: a slot that does not
  read back as the Default type is reported as unconfirmed.
- Angle snapping off sends the angle-edit marker (byte 8 = 2) with angle 0,
  not an all-zero payload.
- Opening the theme picker previews themes live; backing out restores the
  theme it opened on. A settings refresh clears the "refreshing…" status.
