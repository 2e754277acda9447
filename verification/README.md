# sayall-windows

The worker that keeps a Bluetooth voice remote connected and turns its voice button
into dictation: it connects and reconnects, starts and ends voice sessions, holds the
push-to-talk chord while the user speaks, and wakes the WeType input method where it
does not react.

`src/` is the library, verified with Verus. It decides and never waits: one step of the
worker takes an event and gives back commands for the host and at most one query, whose
answer is the next event.

| module | contents |
| --- | --- |
| `model` | the worker as a mathematical object: what each event does |
| `worker` | the executable worker, proved to do what the model says |
| `laws`, `progress`, `outcomes`, `history` | what holds of every step, and of every list of events |
| `protocol` | messages, queries, answers and commands |
| `snapshot`, `error`, `request` | the published state, failures, and answers to requests |
| `reconnect`, `deadline` | the pacing of reconnects, and points in time |
| `gatt` | identifiers, subscriptions, notifications |
| `chord`, `wetype`, `ime` | the chord, the check of WeType's reaction, input methods |
| `diagnostics`, `timestamp`, `text`, `order` | log lines, and how texts are written and compare |

`app/` is the host: threads, channels, files and Windows calls. `tests/` runs the
library on concrete inputs.
