use vstd::prelude::*;

use crate::keypad::{dtmf_frequencies, dtmf_spec, is_digit, is_digit_key};
use crate::player::{push_spec, DfFrameParser, CMD_TRACK_FINISHED};
use crate::routes::{find_exact_route, find_route_spec, is_valid_prefix, is_valid_prefix_spec};
use crate::tones::{
    busy_tone_on, busy_tone_on_spec, elapsed_ms, elapsed_since, ring_tone_on_for_total,
    ring_tone_on_spec, LINE_TONE_HZ, RING_OFF_MS, RING_ON_MS,
};

verus! {

/// Each key sounds its low DTMF frequency alone rather than alternating the pair.
pub const SINGLE_TONE_KEYS: bool = true;
/// With no digit dialed, the line goes busy this long after the handset is lifted.
pub const OFFHOOK_IDLE_TIMEOUT_MS: u32 = 10000;
/// With digits dialed, the line goes busy this long after the last digit.
pub const DIAL_TIMEOUT_MS: u32 = 3000;
/// A new key press counts as a digit only this long after the previous one.
pub const KEY_EVENT_GUARD_MS: u32 = 120;
/// Number of digits the dial buffer holds.
pub const DIAL_BUF_LEN: usize = 8;

/// What the main loop observed in one pass.
#[derive(Clone, Copy, Debug, PartialEq, Eq)]
pub struct TickInputs {
    /// The millisecond timer elapsed since the previous pass.
    pub tick: bool,
    /// The key held down (already remapped), if any.
    pub pressed_key: Option<char>,
    /// The handset is lifted.
    pub handset_up: bool,
    /// Largest duty value of the tone output.
    pub tone_max: u16,
}

/// Why the line went busy.
#[derive(Clone, Copy, Debug, PartialEq, Eq)]
pub enum BusyCause {
    /// The handset was lifted and nothing was dialed in time.
    OffhookIdle,
    /// Digits were dialed but no number was completed in time.
    DialTimeout,
}

/// Changes to apply to the tone output, in this order.
#[derive(Clone, Copy, Debug, PartialEq, Eq)]
pub struct ToneCommand {
    /// Set the duty to zero (the tone is switched off).
    pub silence: bool,
    /// Set the output period to this frequency in Hz.
    pub period_hz: Option<u32>,
    /// Set the duty to this value.
    pub duty: Option<u16>,
}

/// What the main loop does after one pass.
#[derive(Clone, Copy, Debug, PartialEq, Eq)]
pub struct TickOutputs {
    /// Send the stop command to the player.
    pub stop_playback: bool,
    /// Send the command that plays this track.
    pub play_file: Option<u16>,
    /// Light the off-hook indicator.
    pub led_on: bool,
    pub tone: ToneCommand,
    /// The pressed key or the handset position changed since last reported.
    pub key_changed: bool,
    /// A digit was taken into the dial buffer.
    pub accepted_digit: Option<char>,
    /// The digits dialed completed a route: its ringing time and track.
    pub matched_route: Option<(u32, u16)>,
    /// The digits dialed are no prefix of any route.
    pub invalid_prefix: bool,
    /// The line went busy.
    pub busy_started: Option<BusyCause>,
}

/// The state of the exchange as the contracts see it.
#[verifier::ext_equal]
pub struct PhoneView {
    pub now_ms: u32,
    pub prev_handset_up: bool,
    pub prev_pressed_key: Option<char>,
    pub last_key: Option<char>,
    pub last_handset_up: bool,
    pub heartbeat: u32,
    pub dtmf_phase_high: bool,
    pub current_tone_hz: u32,
    pub current_tone_duty: u16,
    pub tone_enabled: bool,
    pub dialing_started: bool,
    pub number_accepted: bool,
    pub ringing: bool,
    pub ring_start_ms: u32,
    pub ring_total_ms: u32,
    pub ring_answer_file_index: u16,
    pub playing: bool,
    pub busy_mode: bool,
    pub busy_start_ms: u32,
    pub offhook_start_ms: u32,
    pub last_keypress_ms: u32,
    pub last_digit_event_ms: u32,
    /// Digits dialed so far (ASCII).
    pub dialed: Seq<u8>,
    /// Bytes of the player frame being received.
    pub parser: Option<Seq<u8>>,
}

/// The 32-bit millisecond clock one step on.
pub open spec fn clock_next(now: u32) -> u32 {
    ((now + 1) % 0x1_0000_0000) as u32
}

pub open spec fn init_spec() -> PhoneView {
    PhoneView {
        now_ms: 0,
        prev_handset_up: false,
        prev_pressed_key: None,
        last_key: None,
        last_handset_up: false,
        heartbeat: 0,
        dtmf_phase_high: false,
        current_tone_hz: 0,
        current_tone_duty: 0,
        tone_enabled: false,
        dialing_started: false,
        number_accepted: false,
        ringing: false,
        ring_start_ms: 0,
        ring_total_ms: 0,
        ring_answer_file_index: 0,
        playing: false,
        busy_mode: false,
        busy_start_ms: 0,
        offhook_start_ms: 0,
        last_keypress_ms: 0,
        last_digit_event_ms: 0,
        dialed: Seq::empty(),
        parser: None,
    }
}

/// The clock advances when the timer elapsed.
pub open spec fn clock_phase(s: PhoneView, tick: bool) -> PhoneView {
    if tick { PhoneView { now_ms: clock_next(s.now_ms), ..s } } else { s }
}

/// Lifting the handset starts the off-hook timer; putting it down stops a
/// playing track and clears the call; a pressed key marks dialing as started.
/// Also returns whether playback is to be stopped.
pub open spec fn handset_phase(s: PhoneView, pressed: Option<char>, up: bool) -> (PhoneView, bool) {
    let s1 = if up && !s.prev_handset_up { PhoneView { offhook_start_ms: s.now_ms, ..s } } else { s };
    let stop = !up && s.prev_handset_up && s.playing;
    let s2 = if stop { PhoneView { playing: false, ..s1 } } else { s1 };
    let s3 = if !up {
        PhoneView {
            dialing_started: false,
            number_accepted: false,
            ringing: false,
            ring_start_ms: 0,
            ring_total_ms: 0,
            ring_answer_file_index: 0,
            busy_mode: false,
            dialed: Seq::empty(),
            last_keypress_ms: s.now_ms,
            last_digit_event_ms: s.now_ms,
            prev_pressed_key: None,
            ..s2
        }
    } else if pressed is Some {
        PhoneView { dialing_started: true, ..s2 }
    } else {
        s2
    };
    (s3, stop)
}

/// A key went down (it was up in the previous pass) with the handset lifted,
/// at least the guard time after the last accepted digit.
pub open spec fn key_event(s: PhoneView, pressed: Option<char>, up: bool) -> bool {
    &&& up
    &&& pressed is Some
    &&& s.prev_pressed_key is None
    &&& elapsed_ms(s.now_ms, s.last_digit_event_ms) >= KEY_EVENT_GUARD_MS
}

/// The line takes a digit only while idle: not busy, not connected, not
/// ringing, not playing.
pub open spec fn accepts_digit(s: PhoneView, key: char) -> bool {
    !s.busy_mode && !s.number_accepted && !s.ringing && !s.playing && is_digit(key)
}

/// The dial buffer after dialing `d`: appended, or, when full, a new number
/// that starts with `d`.
pub open spec fn append_digit(dialed: Seq<u8>, d: u8) -> Seq<u8> {
    if dialed.len() < DIAL_BUF_LEN { dialed.push(d) } else { seq![d] }
}

/// A new digit is appended; a completed route starts ringing. Returns the
/// accepted digit, the matched route's ringing time and track, and whether
/// the digits are no prefix of a route.
pub open spec fn key_phase(s: PhoneView, pressed: Option<char>, up: bool)
    -> (PhoneView, (Option<char>, Option<(u32, u16)>, bool))
{
    let (s1, outcome) = if key_event(s, pressed, up) && accepts_digit(s, pressed->0) {
        let key = pressed->0;
        let d = append_digit(s.dialed, key as u8);
        let s_digit = PhoneView { last_digit_event_ms: s.now_ms, last_keypress_ms: s.now_ms, dialed: d, ..s };
        match find_route_spec(d) {
            Some(r) => (
                PhoneView {
                    ringing: true,
                    ring_start_ms: s.now_ms,
                    ring_total_ms: r.2,
                    ring_answer_file_index: r.1,
                    dialed: Seq::empty(),
                    ..s_digit
                },
                (Some(key), Some((r.2, r.1)), false),
            ),
            None => (s_digit, (Some(key), None, !is_valid_prefix_spec(d))),
        }
    } else {
        (s, (None, None, false))
    };
    (PhoneView { prev_pressed_key: pressed, ..s1 }, outcome)
}

/// When the ringing time is over the call is answered: the route's track plays.
pub open spec fn ring_phase(s: PhoneView, up: bool) -> (PhoneView, Option<u16>) {
    if up && s.ringing && elapsed_ms(s.now_ms, s.ring_start_ms) >= s.ring_total_ms {
        (PhoneView { ringing: false, number_accepted: true, playing: true, ..s }, Some(s.ring_answer_file_index))
    } else {
        (s, None)
    }
}

/// The line goes busy when nothing was dialed for the idle timeout after
/// lifting the handset, or when an incomplete number was left for the dial timeout.
pub open spec fn timeout_phase(s: PhoneView, pressed: Option<char>, up: bool) -> (PhoneView, Option<BusyCause>) {
    if up && !s.dialing_started && !s.busy_mode && !s.number_accepted && !s.ringing
        && elapsed_ms(s.now_ms, s.offhook_start_ms) >= OFFHOOK_IDLE_TIMEOUT_MS {
        (PhoneView { busy_mode: true, busy_start_ms: s.now_ms, ..s }, Some(BusyCause::OffhookIdle))
    } else if up && s.dialing_started && s.dialed.len() > 0 && pressed is None && !s.busy_mode
        && !s.number_accepted && !s.ringing && elapsed_ms(s.now_ms, s.last_keypress_ms) >= DIAL_TIMEOUT_MS {
        (PhoneView { busy_mode: true, busy_start_ms: s.now_ms, ..s }, Some(BusyCause::DialTimeout))
    } else {
        (s, None)
    }
}

/// Remembers the reported key and handset position, and the handset
/// position for edge detection; the heartbeat flips the DTMF phase every pass.
/// Returns whether the key or the handset position changed.
pub open spec fn report_phase(s: PhoneView, pressed: Option<char>, up: bool) -> (PhoneView, bool) {
    let changed = pressed != s.last_key || up != s.last_handset_up;
    (
        PhoneView {
            last_key: if changed { pressed } else { s.last_key },
            last_handset_up: if changed { up } else { s.last_handset_up },
            prev_handset_up: up,
            heartbeat: clock_next(s.heartbeat),
            dtmf_phase_high: !s.dtmf_phase_high,
            ..s
        },
        changed,
    )
}

/// The tone the handset should hear: the busy cadence, silence while a
/// track plays, the DTMF tone of a held key, the ringing cadence, silence
/// once connected or after dialing started, and the line tone before that.
pub open spec fn desired_tone_hz(s: PhoneView, pressed: Option<char>, up: bool) -> u32 {
    if !up {
        0
    } else if s.busy_mode {
        if busy_tone_on_spec(s.now_ms, s.busy_start_ms) { LINE_TONE_HZ } else { 0 }
    } else if s.playing {
        0
    } else if pressed is Some {
        match dtmf_spec(pressed->0) {
            Some((lo, hi)) => if SINGLE_TONE_KEYS { lo } else if s.dtmf_phase_high { hi } else { lo },
            None => 0,
        }
    } else if s.ringing {
        if ring_tone_on_spec(elapsed_ms(s.now_ms, s.ring_start_ms) as u32, s.ring_total_ms, RING_ON_MS, RING_OFF_MS) {
            LINE_TONE_HZ
        } else {
            0
        }
    } else if s.number_accepted {
        0
    } else if !s.dialing_started {
        LINE_TONE_HZ
    } else {
        0
    }
}

/// The tone level: a thirty-second of the full duty.
pub open spec fn desired_duty(tone_max: u16) -> u16 {
    (tone_max / 32) as u16
}

/// Brings the tone output to `hz` at `duty`, issuing only the changes needed.
pub open spec fn tone_phase(s: PhoneView, hz: u32, duty: u16) -> (PhoneView, ToneCommand) {
    if hz == 0 {
        if s.tone_enabled {
            (
                PhoneView { tone_enabled: false, current_tone_hz: 0, current_tone_duty: 0, ..s },
                ToneCommand { silence: true, period_hz: None, duty: None },
            )
        } else {
            (s, ToneCommand { silence: false, period_hz: None, duty: None })
        }
    } else {
        (
            PhoneView { tone_enabled: true, current_tone_hz: hz, current_tone_duty: duty, ..s },
            ToneCommand {
                silence: false,
                period_hz: if hz != s.current_tone_hz { Some(hz) } else { None },
                duty: if !s.tone_enabled || duty != s.current_tone_duty { Some(duty) } else { None },
            },
        )
    }
}

/// The state just before the tone is chosen, after all other phases of a pass.
pub open spec fn pre_tone_state(s: PhoneView, i: TickInputs) -> PhoneView {
    let s1 = clock_phase(s, i.tick);
    let s2 = handset_phase(s1, i.pressed_key, i.handset_up).0;
    let s3 = key_phase(s2, i.pressed_key, i.handset_up).0;
    let s4 = ring_phase(s3, i.handset_up).0;
    let s5 = timeout_phase(s4, i.pressed_key, i.handset_up).0;
    report_phase(s5, i.pressed_key, i.handset_up).0
}

/// One pass of the main loop: the new state and what to do.
pub open spec fn step_spec(s: PhoneView, i: TickInputs) -> (PhoneView, TickOutputs) {
    let pressed = i.pressed_key;
    let up = i.handset_up;
    let s1 = clock_phase(s, i.tick);
    let (s2, stop) = handset_phase(s1, pressed, up);
    let (s3, (accepted, matched, invalid)) = key_phase(s2, pressed, up);
    let (s4, play) = ring_phase(s3, up);
    let (s5, busy) = timeout_phase(s4, pressed, up);
    let (s6, changed) = report_phase(s5, pressed, up);
    let (s7, tone) = tone_phase(s6, desired_tone_hz(s6, pressed, up), desired_duty(i.tone_max));
    (
        s7,
        TickOutputs {
            stop_playback: stop,
            play_file: play,
            led_on: up,
            tone,
            key_changed: changed,
            accepted_digit: accepted,
            matched_route: matched,
            invalid_prefix: invalid,
            busy_started: busy,
        },
    )
}

/// A byte from the player: a completed track-finished frame ends playback.
pub open spec fn player_byte_spec(s: PhoneView, b: u8) -> (PhoneView, Option<(u8, u16)>) {
    let (p, r) = push_spec(s.parser, b);
    let playing = match r {
        Some((cmd, _)) => if cmd == CMD_TRACK_FINISHED { false } else { s.playing },
        None => s.playing,
    };
    (PhoneView { parser: p, playing, ..s }, r)
}

/// The exchange: everything the main loop remembers between passes.
pub struct Phone {
    now_ms: u32,
    prev_handset_up: bool,
    prev_pressed_key: Option<char>,
    last_key: Option<char>,
    last_handset_up: bool,
    heartbeat: u32,
    dtmf_phase_high: bool,
    current_tone_hz: u32,
    current_tone_duty: u16,
    tone_enabled: bool,
    dialing_started: bool,
    number_accepted: bool,
    ringing: bool,
    ring_start_ms: u32,
    ring_total_ms: u32,
    ring_answer_file_index: u16,
    playing: bool,
    busy_mode: bool,
    busy_start_ms: u32,
    offhook_start_ms: u32,
    last_keypress_ms: u32,
    last_digit_event_ms: u32,
    dialed: Vec<u8>,
    parser: DfFrameParser,
}

impl View for Phone {
    type V = PhoneView;

    closed spec fn view(&self) -> PhoneView {
        PhoneView {
            now_ms: self.now_ms,
            prev_handset_up: self.prev_handset_up,
            prev_pressed_key: self.prev_pressed_key,
            last_key: self.last_key,
            last_handset_up: self.last_handset_up,
            heartbeat: self.heartbeat,
            dtmf_phase_high: self.dtmf_phase_high,
            current_tone_hz: self.current_tone_hz,
            current_tone_duty: self.current_tone_duty,
            tone_enabled: self.tone_enabled,
            dialing_started: self.dialing_started,
            number_accepted: self.number_accepted,
            ringing: self.ringing,
            ring_start_ms: self.ring_start_ms,
            ring_total_ms: self.ring_total_ms,
            ring_answer_file_index: self.ring_answer_file_index,
            playing: self.playing,
            busy_mode: self.busy_mode,
            busy_start_ms: self.busy_start_ms,
            offhook_start_ms: self.offhook_start_ms,
            last_keypress_ms: self.last_keypress_ms,
            last_digit_event_ms: self.last_digit_event_ms,
            dialed: self.dialed@,
            parser: self.parser@,
        }
    }
}

impl Phone {
    pub closed spec fn wf(&self) -> bool {
        self.parser.wf()
    }

    pub fn new() -> (p: Self)
        ensures
            p.wf(),
            p@ == init_spec(),
    {
        Phone {
            now_ms: 0,
            prev_handset_up: false,
            prev_pressed_key: None,
            last_key: None,
            last_handset_up: false,
            heartbeat: 0,
            dtmf_phase_high: false,
            current_tone_hz: 0,
            current_tone_duty: 0,
            tone_enabled: false,
            dialing_started: false,
            number_accepted: false,
            ringing: false,
            ring_start_ms: 0,
            ring_total_ms: 0,
            ring_answer_file_index: 0,
            playing: false,
            busy_mode: false,
            busy_start_ms: 0,
            offhook_start_ms: 0,
            last_keypress_ms: 0,
            last_digit_event_ms: 0,
            dialed: Vec::new(),
            parser: DfFrameParser::new(),
        }
    }
}

impl Phone {
    fn advance_clock(&mut self, tick: bool)
        requires
            old(self).wf(),
        ensures
            final(self).wf(),
            final(self)@ == clock_phase(old(self)@, tick),
    {
        if tick {
            self.now_ms = self.now_ms.wrapping_add(1);
        }
    }

    fn apply_handset(&mut self, pressed: Option<char>, up: bool) -> (stop: bool)
        requires
            old(self).wf(),
        ensures
            final(self).wf(),
            (final(self)@, stop) == handset_phase(old(self)@, pressed, up),
    {
        if up && !self.prev_handset_up {
            self.offhook_start_ms = self.now_ms;
        }
        let mut stop = false;
        if !up && self.prev_handset_up {
            if self.playing {
                stop = true;
                self.playing = false;
            }
        }
        if !up {
            self.dialing_started = false;
            self.number_accepted = false;
            self.ringing = false;
            self.ring_start_ms = 0;
            self.ring_total_ms = 0;
            self.ring_answer_file_index = 0;
            self.busy_mode = false;
            self.dialed = Vec::new();
            self.last_keypress_ms = self.now_ms;
            self.last_digit_event_ms = self.now_ms;
            self.prev_pressed_key = None;
        } else if pressed.is_some() {
            self.dialing_started = true;
        }
        proof {
            assert(self@ =~= handset_phase(old(self)@, pressed, up).0);
        }
        stop
    }

    fn apply_key(&mut self, pressed: Option<char>, up: bool) -> (outcome: (Option<char>, Option<(u32, u16)>, bool))
        requires
            old(self).wf(),
        ensures
            final(self).wf(),
            (final(self)@, outcome) == key_phase(old(self)@, pressed, up),
    {
        let ghost s = self@;
        let raw_event = pressed.is_some() && self.prev_pressed_key.is_none();
        let key_event = raw_event && elapsed_since(self.now_ms, self.last_digit_event_ms) >= KEY_EVENT_GUARD_MS;
        let mut outcome: (Option<char>, Option<(u32, u16)>, bool) = (None, None, false);
        if up && key_event {
            let key = pressed.unwrap();
            if !self.busy_mode && !self.number_accepted && !self.ringing && !self.playing && is_digit_key(key) {
                self.last_digit_event_ms = self.now_ms;
                self.last_keypress_ms = self.now_ms;
                let digit = key as u8;
                if self.dialed.len() < DIAL_BUF_LEN {
                    self.dialed.push(digit);
                } else {
                    self.dialed = vec![digit];
                }
                assert(self.dialed@ =~= append_digit(s.dialed, key as u8));
                match find_exact_route(self.dialed.as_slice()) {
                    Some(route) => {
                        self.ringing = true;
                        self.ring_start_ms = self.now_ms;
                        self.ring_total_ms = route.ring_total_ms;
                        self.ring_answer_file_index = route.file_index;
                        self.dialed = Vec::new();
                        self.last_keypress_ms = self.now_ms;
                        outcome = (Some(key), Some((route.ring_total_ms, route.file_index)), false);
                    },
                    None => {
                        let invalid = !is_valid_prefix(self.dialed.as_slice());
                        outcome = (Some(key), None, invalid);
                    },
                }
            }
        }
        self.prev_pressed_key = pressed;
        proof {
            assert(self@ =~= key_phase(s, pressed, up).0);
        }
        outcome
    }

    fn apply_ring(&mut self, up: bool) -> (play: Option<u16>)
        requires
            old(self).wf(),
        ensures
            final(self).wf(),
            (final(self)@, play) == ring_phase(old(self)@, up),
    {
        if up && self.ringing {
            let elapsed = elapsed_since(self.now_ms, self.ring_start_ms);
            if elapsed >= self.ring_total_ms {
                self.ringing = false;
                self.number_accepted = true;
                self.playing = true;
                return Some(self.ring_answer_file_index);
            }
        }
        None
    }

    fn apply_timeouts(&mut self, pressed: Option<char>, up: bool) -> (busy: Option<BusyCause>)
        requires
            old(self).wf(),
        ensures
            final(self).wf(),
            (final(self)@, busy) == timeout_phase(old(self)@, pressed, up),
    {
        if up && !self.dialing_started && !self.busy_mode && !self.number_accepted && !self.ringing
            && elapsed_since(self.now_ms, self.offhook_start_ms) >= OFFHOOK_IDLE_TIMEOUT_MS {
            self.busy_mode = true;
            self.busy_start_ms = self.now_ms;
            return Some(BusyCause::OffhookIdle);
        }
        if up && self.dialing_started && self.dialed.len() > 0 && pressed.is_none() && !self.busy_mode
            && !self.number_accepted && !self.ringing {
            if elapsed_since(self.now_ms, self.last_keypress_ms) >= DIAL_TIMEOUT_MS {
                self.busy_mode = true;
                self.busy_start_ms = self.now_ms;
                return Some(BusyCause::DialTimeout);
            }
        }
        None
    }

    fn apply_report(&mut self, pressed: Option<char>, up: bool) -> (changed: bool)
        requires
            old(self).wf(),
        ensures
            final(self).wf(),
            (final(self)@, changed) == report_phase(old(self)@, pressed, up),
    {
        let changed = pressed != self.last_key || up != self.last_handset_up;
        if changed {
            self.last_key = pressed;
            self.last_handset_up = up;
        }
        self.prev_handset_up = up;
        self.heartbeat = self.heartbeat.wrapping_add(1);
        if self.heartbeat % 1 == 0 {
            self.dtmf_phase_high = !self.dtmf_phase_high;
        }
        changed
    }

    fn desired_tone(&self, pressed: Option<char>, up: bool) -> (hz: u32)
        ensures
            hz == desired_tone_hz(self@, pressed, up),
    {
        if !up {
            return 0;
        }
        if self.busy_mode {
            if busy_tone_on(self.now_ms, self.busy_start_ms) {
                LINE_TONE_HZ
            } else {
                0
            }
        } else if self.playing {
            0
        } else if let Some(key) = pressed {
            if let Some((f_low, f_high)) = dtmf_frequencies(key) {
                if SINGLE_TONE_KEYS {
                    f_low
                } else if self.dtmf_phase_high {
                    f_high
                } else {
                    f_low
                }
            } else {
                0
            }
        } else if self.ringing {
            let elapsed = elapsed_since(self.now_ms, self.ring_start_ms);
            if ring_tone_on_for_total(elapsed, self.ring_total_ms, RING_ON_MS, RING_OFF_MS) {
                LINE_TONE_HZ
            } else {
                0
            }
        } else if self.number_accepted {
            0
        } else if !self.dialing_started {
            LINE_TONE_HZ
        } else {
            0
        }
    }

    fn apply_tone(&mut self, hz: u32, duty: u16) -> (cmd: ToneCommand)
        requires
            old(self).wf(),
        ensures
            final(self).wf(),
            (final(self)@, cmd) == tone_phase(old(self)@, hz, duty),
    {
        let mut cmd = ToneCommand { silence: false, period_hz: None, duty: None };
        if hz == 0 {
            if self.tone_enabled {
                cmd.silence = true;
                self.tone_enabled = false;
                self.current_tone_hz = 0;
                self.current_tone_duty = 0;
            }
        } else {
            if hz != self.current_tone_hz {
                cmd.period_hz = Some(hz);
                self.current_tone_hz = hz;
            }
            if !self.tone_enabled || duty != self.current_tone_duty {
                cmd.duty = Some(duty);
                self.current_tone_duty = duty;
            }
            if !self.tone_enabled {
                self.tone_enabled = true;
            }
        }
        cmd
    }

    /// One pass of the main loop, after the player's bytes were read: the
    /// clock, the handset, the keypad, ringing, time-outs and the tone.
    pub fn tick(&mut self, input: TickInputs) -> (out: TickOutputs)
        requires
            old(self).wf(),
        ensures
            final(self).wf(),
            (final(self)@, out) == step_spec(old(self)@, input),
    {
        let pressed = input.pressed_key;
        let up = input.handset_up;
        self.advance_clock(input.tick);
        let stop_playback = self.apply_handset(pressed, up);
        let (accepted_digit, matched_route, invalid_prefix) = self.apply_key(pressed, up);
        let play_file = self.apply_ring(up);
        let busy_started = self.apply_timeouts(pressed, up);
        let key_changed = self.apply_report(pressed, up);
        let hz = self.desired_tone(pressed, up);
        let duty = input.tone_max / 32;
        let tone = self.apply_tone(hz, duty);
        TickOutputs {
            stop_playback,
            play_file,
            led_on: up,
            tone,
            key_changed,
            accepted_digit,
            matched_route,
            invalid_prefix,
            busy_started,
        }
    }

    /// One byte read from the player: returns the command and parameter of a
    /// frame it completes; a track-finished frame ends playback.
    pub fn on_player_byte(&mut self, b: u8) -> (r: Option<(u8, u16)>)
        requires
            old(self).wf(),
        ensures
            final(self).wf(),
            (final(self)@, r) == player_byte_spec(old(self)@, b),
    {
        let r = self.parser.push(b);
        if let Some((cmd, _param)) = r {
            if cmd == CMD_TRACK_FINISHED {
                self.playing = false;
            }
        }
        r
    }
}

impl Phone {
    /// The millisecond clock.
    pub fn now_ms(&self) -> (r: u32)
        ensures
            r == self@.now_ms,
    {
        self.now_ms
    }

    /// Number of digits in the dial buffer.
    pub fn dial_len(&self) -> (r: usize)
        ensures
            r == self@.dialed.len(),
    {
        self.dialed.len()
    }

    /// The digits in the dial buffer (ASCII).
    pub fn dialed_digits(&self) -> (r: &[u8])
        ensures
            r@ == self@.dialed,
    {
        self.dialed.as_slice()
    }

    /// Clock time of the last accepted digit or completed number.
    pub fn last_keypress_ms(&self) -> (r: u32)
        ensures
            r == self@.last_keypress_ms,
    {
        self.last_keypress_ms
    }

    /// Clock time at which the handset was last lifted.
    pub fn offhook_start_ms(&self) -> (r: u32)
        ensures
            r == self@.offhook_start_ms,
    {
        self.offhook_start_ms
    }

    pub fn is_ringing(&self) -> (r: bool)
        ensures
            r == self@.ringing,
    {
        self.ringing
    }

    pub fn is_busy(&self) -> (r: bool)
        ensures
            r == self@.busy_mode,
    {
        self.busy_mode
    }

    pub fn is_playing(&self) -> (r: bool)
        ensures
            r == self@.playing,
    {
        self.playing
    }

    /// The call was answered (its track was started).
    pub fn number_accepted(&self) -> (r: bool)
        ensures
            r == self@.number_accepted,
    {
        self.number_accepted
    }

    /// The frequency the tone output plays, 0 when it is off.
    pub fn current_tone_hz(&self) -> (r: u32)
        ensures
            r == self@.current_tone_hz,
    {
        self.current_tone_hz
    }
}

} // verus!
