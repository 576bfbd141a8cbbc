# cosmic_nightlight

Night light for the COSMIC desktop: a panel applet, a settings window, a
background scheduler and a small root helper that writes colour-temperature
gamma ramps straight to DRM during a VT bounce (COSMIC has no gamma-control
protocol yet).

The decisions of all of these are a library in `src/`, checked by Verus against
the contracts below:

| Module | What its contracts state |
| --- | --- |
| `nightlight::config`, `nightshift::config` | settings keys and their codecs, merging stored values over defaults (a stored snapshot reads back unchanged), the night window from sunset to sunrise, the override rules (a toggle takes effect at once; an expired override is cleared without changing the tint), hour labels and the status line |
| `nightlight::daemon`, `nightshift::daemon` | the scheduler's state machine: when to apply, reset or keep, what a failure leaves behind and how long to sleep |
| `nightlight::autostart`, `nightlight::backend`, `nightshift::backend`, `helper_command` | the autostart entry's path and text, the change that sets autostart and whether autostart is on given the file's presence, the helper's command line, and which helper is picked given which install locations exist |
| `controls` | what the toggle and the temperature slider ask the helper to do |
| `helper_args` | the helpers' command-line grammar and error messages |
| `cards`, `engine`, `kelvin` | which DRM nodes and CRTCs get a ramp, in which order, the retries for the DRM master lock, the total of CRTCs updated, which VT to return to, the temperature bounds |
| `parse`, `text` | decimal integers, trimming and rendering as the standard library does them |

The library trusts nothing outside itself: the local clock's hour and
whether a file exists are read by the caller and handed in.

`app/` holds everything else: the libcosmic GUI and settings store, reading
the clock and the environment, looking at files, the DRM/VT ioctls, process spawning, and the floating-point gamma curve
(`white_point`, `ramp`). One binary serves every program; the name it is
invoked under picks which.
