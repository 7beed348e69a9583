# Karta

Karta places phone calls on behalf of a person (its *principal*): it books
appointments, asks questions and negotiates within limits the principal sets,
and asks the principal over a terminal "backchannel" when it needs a decision.

This crate is written in Verus. The library under `src/` holds the logic, each
function with a contract that Verus proves:

- `conversation` — the call's state machine and the session's decisions
  (system prompt, steps of a call, what the terminal is told);
- `task` — tasks, their builder and history, and the task store with its
  queries;
- `config` — the principal's profile and boundaries, the agent's personality,
  and the merging of environment variables into the configuration;
- `telephony` — calls, the mock provider and scripted conversations, and the
  requests and answers of Twilio and Telnyx;
- `voice` — the tools offered to the model, the Gemini Live messages and the
  reading of its replies, and the scripted voice engine;
- `ui` — the texts the terminal shows and the backchannel's handling of events
  and keys;
- `commands` and `cli` — what each command of the program decides.

`app/` is the program around the library: argument parsing, files, the
network (HTTP and WebSocket), the terminal in raw mode, and the async loops
that hand events to the library. `tests/` exercises the library on concrete
values.
