# Hyperion

A controller engine: it decodes the reports of a DualSense pad, filters sticks and triggers, remaps
every control to pad buttons, keys, mouse motion, wheel or macros, and edits the profiles that say
how.

`src/` is the library, written in Verus. Every rule of the engine stands there with its contract:

- `input`: report decoding, the control table, thresholds, report counters and the report clock
- `output`: the pad state, its Xbox and DualShock words, the keyboard and mouse batch
- `map`: bindings, profiles, the mapping of a report, how latched keys behave from report to report,
  and what becomes of a mouse motion
- `rc`, `stick`, `trigger`, `mouse_accum`: the filters and what they remember between reports
- `config`, `names`, `autoswitch`: the configuration tree and the rules that switch profiles
- `editor`: what the configuration window decides, from captured keys to the messages it sends

Doubles are carried by their bit patterns (`scalar`), on which comparing, clamping and negating are
exact. Arithmetic on doubles is left to the caller: the library says which step runs, on what, and
what becomes of the result.

`app/` is the program around the library: the file format, the numeric steps, the report loop and
the window. `tests/` runs the library from outside.
