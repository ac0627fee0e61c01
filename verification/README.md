# lecoo_control

Control of LECOO laptops: fans, power profiles, keyboard backlight, LED ring and battery charging,
through the embedded controller of the machine. The crate holds the logic of a daemon, of the
control centre that talks to it, and of the server that collects its telemetry. It is verified with
Verus, but for one thing that is believed: `debug_text` in `gui::replies`, the text that std's `{:?}`
makes of an answer, is a function of that answer alone.

## How it talks to the outside

Nothing in `src/` reads a port, a file, a socket or a clock. An operation that needs one asks for it
in a `Session`: it runs on the replies recorded so far and stops, suspended, at the first request
without one. The caller performs that request, records the reply and calls the operation again.
Each operation has a specification function, named `..._run`, that gives the whole conversation it
leads and its result. `replay` proves of these conversations that leading one again repeats what was
asked before, so that no request is ever performed twice and none is left out. An operation that only
makes an answer of such a conversation repeats with it.

## Modules

| Module | Contents |
| --- | --- |
| `session` | conversations with the outside |
| `text` | the string operations that labels, messages and state files need |
| `types` | what the daemon, the control centre and telemetry share |
| `ec` | the embedded controller: ports, board profiles, window detection, fans, charging, driver |
| `fixed_map` | the same controller with its fixed map of registers |
| `handlers` | what a request does to the hardware and to the settings |
| `ipc` | client and server ends of the daemon's socket |
| `services` | events of the service managers |
| `daemon` | how the daemon starts, serves a connection and reacts to the machine |
| `telemetry`, `telemetry_server` | reports of the daemon, and what becomes of them |
| `gui` | state, worker, labels and pages of the control centre |
| `replay` | running an operation again repeats it |

`tests/` runs the library on concrete values. `app/` is ordinary Rust around it: it performs the
requests and draws the pages.
