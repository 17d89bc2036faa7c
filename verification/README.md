# dialtone

The decision logic of a toy telephone exchange built on a Blue Pill
(STM32F103): a 4x4 keypad and a handset switch go in, line, ringing, busy and
DTMF tones come out of a PWM pin, and a DFPlayer Mini plays an announcement
once a known number has been dialed and has rung long enough.

- `src/keypad.rs`: keypad layout, wiring remap, DTMF pairs, labels, and the
  row-by-row scan decision.
- `src/tones.rs`: the wrapping millisecond clock and the busy and ringing cadences.
- `src/player.rs`: the player's ten-byte command frames and the receiving
  frame parser, with the round trip between them.
- `src/routes.rs`: the routing table of dialable numbers.
- `src/phone.rs`: the per-pass state machine (state and inputs to next state
  and actions); `src/phone_laws.rs`: its invariant and behavioural properties.
- `app/main.rs`: the firmware loop that reads the pins, feeds the state
  machine and applies its actions.
