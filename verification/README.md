# kannaka_tui

The terminal dashboard of the Kannaka constellation: six tabs (Memory, Status,
Bus, Constellation, Dreams, Chat) over the `kannaka` command-line binary.

`src/` is the dashboard's logic, verified with Verus. It starts no process and
draws nothing: it takes keys, replies and frames as plain values, and gives back
a new state, the work to be done, and the screen to be drawn.

- `text`, `single`, `style`: characters, single-precision numbers by their bits,
  coloured text and panels.
- `json`, `bus`, `agents`, `reply`, `config`, `clock`: what is read from outside.
- `input`, `command`, `effect`, `chat`, `live`, `dream`: the parts of the state.
- `model`: the state as a mathematical value, and how it changes.
- `app`, `runs`, `round`: the dashboard itself, held to `model`.
- `shade`, `screen`: what the tabs show.
- `laws`: what holds of the dashboard as a whole.

`app/` is the program around it: the terminal, the child processes, the drawing,
and the arithmetic on floating-point readings.

The cursor of the input bar counts bytes and moves by one of them at a time. A
key that would edit in the middle of a character is not accepted
(`App::accepts_key`).
