# ansi_terminal

Interpretation of the byte stream that a program writes to a terminal: characters, control
characters, escape sequences, control sequences, operating system commands and synchronized
updates. What the stream asks for reaches the terminal as calls of a `Handler`.

The library is written in Verus. Every function states what it returns or changes. Verus proves
it, except for the few functions that call the `vte` crate, the standard library's text
functions or the clock: what these state is taken from the code that they call.

## Layout

- `src/processor.rs`: the `Processor`, which takes in the stream byte by byte.
- `src/state.rs`: what a processor remembers, and how it responds to an event.
- `src/control.rs`, `src/csi.rs`, `src/sgr.rs`, `src/esc.rs`, `src/osc.rs`: from one event to
  the actions that it asks for.
- `src/action.rs`, `src/handler.rs`: the actions, and the handler that receives them.
- `src/sync.rs`: the laws of synchronized updates.
- `src/parser.rs`: the parser of the `vte` crate, and what is taken from it without proof.
- `src/text.rs`, `src/clock.rs`: text and time, with what is taken from the standard library
  without proof.
- `src/xcolor.rs`, `src/number.rs`, `src/params.rs`, `src/bytes.rs`: colors, numbers,
  parameters and byte strings.
- `src/color.rs`, `src/attr.rs`, `src/charset.rs`, `src/mode.rs`, `src/cursor.rs`,
  `src/index.rs`, `src/C0.rs`: the vocabulary of a terminal.
- `app/`: colors that can be written to a file and read back, and a handler that logs what
  another one leaves unhandled.

## How the contracts read

The specification of a stream is built in steps. `parser_events` names what the parser finds in
a byte. `StateView::actions` and `StateView::after` say what an event asks for and what it
leaves behind. `ProcessorView::advanced` and `ProcessorView::advance_actions` say the same of a
byte of the stream, with synchronized updates.

A handler is any type with the methods of `Handler`. That it received the calls for a list of
actions, and no others, is said by `performed`: there are references to the handler, one for
each action, through which its methods were called one behind the other.

Laws are public proof functions whose names begin with `law_`.
