# clank

A terminal typing trainer. The verified library (`src/`) holds the logic that
decides what every keystroke means and what it records:

- `session` — the typing session as a state machine: strict cursor, one-key
  lookahead classification of mistakes (insertion, omission, substitution,
  reversal), backspace, and the timing samples handed to the speed model.
- `model` — per-digram counts: accepted timing observations (with pause
  rejection), correct and errored attempts, prior-blended accuracy.
- `controls` — what each key event asks of the program, per screen.
- `corpus` — which words are drilled, their digrams, and lesson text.

`app/` is the program around it: terminal I/O and drawing (ratatui), the
clock, random lesson sampling, the floating-point bias-invariant speed
estimator, and the JSON model file in the platform data directory. The word
list is read from `assets/words.txt`.
