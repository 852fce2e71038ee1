# garlock

A screen locker for X11: a blurred screenshot behind a ring indicator, PAM
authentication, and a daemon that locks on request over a Unix socket.

The library under `src/` holds the locker's logic, verified with Verus:

- `password`: the bounded password buffer, kept as UTF-8 with zeros after it
  and wiped by `zeroize`;
- `state`, `ring`, `session`: the authentication and input state machines,
  their timeouts and cooldown, the ring indicator, and the decisions a lock
  session takes on each key press and authentication result;
- `keyboard`: what a key press means, from its keysym and text;
- `protocol`: the daemon's messages and its answer to each command;
- `monitors`: the monitor layout from RandR reports;
- `hex`, `background`, `screenshot`, `transfer`, `overlay`, `config`,
  `error`, `auth`: colours, pixel buffers, image bands, overlay texts,
  settings, errors and the authentication result channel.

`app/` is the program around it: X11, xkbcommon, PAM, Cairo and Pango, the
socket, the configuration file, and the floating-point image work.
