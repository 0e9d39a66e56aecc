# winit_softbuffer_bar

A status bar that renders with Cairo and shows the result through a software
surface.

`src/` is the verified core. It decides; it does no I/O. Each event is handed to
it as a plain value, and it answers with the new state and a list of actions.

- `app`: the bar's window. Every method is specified by a transition of `state`.
- `state`: the state as a mathematical value and its transitions.
- `history`: what holds over whole runs of the window.
- `run`: what holds where answers come only to the actions that ask for them.
- `frame`: copying a rendered image into the frame of a surface.
- `back_buffer`: when the image has to be created anew.
- `ticker`: the thread that wakes the event loop every second.
- `notifier`: the thread that forwards notifications of the shared transport, and
  how it shares its flag with the event loop.
- `pointer`: what buttons and wheels mean.
- `startup`: command line and environment.
- `geometry`, `event`, `action`: the values that go in and out.

Two functions rest on code outside the verified part: reinterpreting bytes as
words (`bytemuck`) and the platform's poll codes (`libc`). Their doc comments say
what is taken on trust.

Fractional values enter the core as bit patterns. Whatever has to be computed with
them is computed in `app/`, the program around the core.
