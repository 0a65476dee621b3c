# winglance_overlay

The now-playing overlay pill: a small, passive, always-on-top notification
that shows what is playing, never takes a click or the focus, and gets out of
the way of fullscreen applications.

`src/` is the verified core. It holds the overlay's state and decides every
reaction to media events, the cursor, the foreground, timers and settings. It
touches no window: what is to be done is left as a list of effects, and what
the system says comes in as plain values (`Env`). Each reaction is proved equal
to a function on the mathematical state `Pill` (`pill.rs`); the laws that span
several reactions are proof functions in `order.rs`, `promises.rs` and beside
the functions they speak of.

| module | what it decides |
| --- | --- |
| `config`, `settings` | settings, durations, live changes of them |
| `events`, `queue`, `ledger` | media events, waiting notifications, remembered tracks and states |
| `text`, `progress`, `hover` | source matching and names, the progress bar, the cursor |
| `geometry`, `drawing`, `pixels` | sizes, morphs, frames, pixel buffers |
| `fullscreen`, `backdrop` | displays, placement, layout, the glass behind the pill |
| `overlay`, `showing`, `receiving`, `ticking`, `window` | the state and its reactions |

`app/` is the ordinary Rust around it: the driver that samples the system and
performs effects, the floating-point springs, and the Windows layer.

Times are milliseconds, positions microseconds, rates thousandths, lengths
thousandths of a logical pixel, and progress and opacity millionths.
