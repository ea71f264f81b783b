# home

A small home automation service. The library (`src/`) holds its logic,
verified with Verus:

- `mtrf_dev`: the state machine of a radio wall switch (`On`, `Off`, `Switch`).
- `wire`: radio frames, the registry of radio devices by channel, the router
  that hands frames to their devices and raises low-battery notices, and the
  choice of the transceiver's serial port.
- `proxy`: lights and curtains driven over HTTP by a device service: their
  URLs, the documents exchanged, and how answers are judged.
- `home`: the registry filled while the rooms are built, and the devices of
  the bedroom and the hall, and the building of the whole home.
- `homekit`, `ids`, `telegram`, `text`: the bridge settings, accessory
  identifiers, the notification bot, decimal notation and substring search.

The application (`app/`) does the I/O: the serial transceiver, HTTP calls,
the HomeKit server and the web server.
