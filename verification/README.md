# Bluetooth Audio Bridge

Forwards incoming Bluetooth audio to the output that is selected in Ubuntu. A controller runs in
the background and a command line asks it to change levels, mutes and forwarding.

`src/` is a verified library: every decision of the two programs, with its contract. `app/` is
the part that touches the world: files, the control socket, the system bus and the native audio
engine. It asks the library what to do and reports back what came of it.

| Module | What it decides |
|---|---|
| `config`, `document` | the settings, their rules, and what is read and written of them |
| `clock` | what the clock is asked of the timers, and what it answers |
| `gain` | which single-precision numbers are gains, by their bits |
| `storage`, `path` | where settings are kept, which files are trusted, how they are replaced |
| `ipc`, `json` | commands, answers, messages, the lock and the control socket |
| `bluetooth`, `a2dp` | what BlueZ shows, and when a source without audio is asked to send it |
| `policy` | whether the optional input rule is installed |
| `audio`, `controller` | what the engine is told and when it is started again |
| `report`, `cli`, `printout` | the status, what is asked on the command line, and what is printed |
| `text` | trimming, case, order and decimal numbers |

Times are nanoseconds on one clock, paths are bytes, and gains are the bits of their
floating-point numbers. What the library takes on trust of the standard library, `serde_json` and
`toml` stands in the doc comments of the items that call them: `text`, `json`, `config` and
`clock` hold all of them.
