//! Decision logic of a telephone exchange toy: a 4x4 keypad, DTMF and line
//! tones, a small routing table of dialable numbers, a serial frame codec for
//! an MP3 player module, and the per-tick state machine that ties them together.

pub mod keypad;
pub mod tones;
pub mod player;
pub mod routes;
pub mod phone;
pub mod phone_laws;
