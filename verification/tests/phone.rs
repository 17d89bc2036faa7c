use dialtone::keypad::remap_key;
use dialtone::phone::{BusyCause, Phone, TickInputs, TickOutputs, ToneCommand};
use dialtone::player::{dfplayer_command_frame, play_root_index_frame};

const MAX: u16 = 3200;

fn step(p: &mut Phone, key: Option<char>, up: bool) -> TickOutputs {
    p.tick(TickInputs { tick: true, pressed_key: key, handset_up: up, tone_max: MAX })
}

fn idle(p: &mut Phone, n: u32, up: bool) -> Vec<TickOutputs> {
    (0..n).map(|_| step(p, None, up)).collect()
}

fn dial(p: &mut Phone, digits: &str) -> Vec<TickOutputs> {
    let mut outs = Vec::new();
    for d in digits.chars() {
        outs.push(step(p, Some(d), true));
        outs.extend(idle(p, 200, true));
    }
    outs
}

fn lifted() -> Phone {
    let mut p = Phone::new();
    idle(&mut p, 200, false);
    idle(&mut p, 200, true);
    p
}

#[test]
fn lifting_handset_gives_line_tone() {
    let mut p = Phone::new();
    let out = step(&mut p, None, true);
    assert!(out.led_on);
    assert_eq!(out.tone, ToneCommand { silence: false, period_hz: Some(425), duty: Some(100) });
    assert!(out.key_changed);
    let out = step(&mut p, None, true);
    assert_eq!(out.tone, ToneCommand { silence: false, period_hz: None, duty: None });
    assert!(!out.key_changed);
    assert_eq!(p.current_tone_hz(), 425);
}

#[test]
fn handset_down_is_silent_and_dark() {
    let mut p = Phone::new();
    let out = step(&mut p, None, false);
    assert!(!out.led_on);
    assert_eq!(out.tone, ToneCommand { silence: false, period_hz: None, duty: None });
    step(&mut p, None, true);
    let out = step(&mut p, None, false);
    assert_eq!(out.tone, ToneCommand { silence: true, period_hz: None, duty: None });
    assert_eq!(p.current_tone_hz(), 0);
}

#[test]
fn key_sounds_low_dtmf_tone() {
    let mut p = lifted();
    let out = step(&mut p, Some('5'), true);
    assert_eq!(out.accepted_digit, Some('5'));
    assert_eq!(out.tone.period_hz, Some(770));
    assert_eq!(p.dialed_digits(), b"5");
}

#[test]
fn dialing_route_rings_then_plays_track() {
    let mut p = lifted();
    let outs = dial(&mut p, "566");
    assert!(outs.iter().all(|o| o.matched_route.is_none() && o.busy_started.is_none()));
    let out = step(&mut p, Some('4'), true);
    assert_eq!(out.accepted_digit, Some('4'));
    assert_eq!(out.matched_route, Some((4000, 1)));
    assert!(p.is_ringing());
    assert_eq!(p.dial_len(), 0);
    let out = step(&mut p, None, true);
    assert_eq!(out.tone.period_hz, Some(425));
    let outs = idle(&mut p, 3998, true);
    assert!(outs.iter().all(|o| o.play_file.is_none()));
    assert_eq!(p.current_tone_hz(), 0);
    let out = step(&mut p, None, true);
    assert_eq!(out.play_file, Some(1));
    assert!(p.is_playing());
    assert!(p.number_accepted());
    assert!(!p.is_ringing());
    assert_eq!(play_root_index_frame(out.play_file.unwrap())[6], 1);
}

#[test]
fn handset_down_stops_playback() {
    let mut p = lifted();
    dial(&mut p, "112");
    idle(&mut p, 7500, true);
    assert!(p.is_playing());
    let out = step(&mut p, None, false);
    assert!(out.stop_playback);
    assert!(!p.is_playing());
    assert!(!p.number_accepted());
    let out = step(&mut p, None, false);
    assert!(!out.stop_playback);
}

#[test]
fn track_finished_frame_ends_playback() {
    let mut p = lifted();
    dial(&mut p, "112");
    idle(&mut p, 7500, true);
    assert!(p.is_playing());
    let mut report = None;
    for b in dfplayer_command_frame(0x3D, 3) {
        report = p.on_player_byte(b);
    }
    assert_eq!(report, Some((0x3D, 3)));
    assert!(!p.is_playing());
    let out = step(&mut p, None, true);
    assert!(!out.stop_playback);
}

#[test]
fn other_player_frames_keep_playing() {
    let mut p = lifted();
    dial(&mut p, "112");
    idle(&mut p, 7500, true);
    for b in dfplayer_command_frame(0x41, 0) {
        p.on_player_byte(b);
    }
    assert!(p.is_playing());
}

#[test]
fn offhook_idle_goes_busy() {
    let mut p = Phone::new();
    step(&mut p, None, true);
    let outs = idle(&mut p, 9999, true);
    assert!(outs.iter().all(|o| o.busy_started.is_none()));
    let out = step(&mut p, None, true);
    assert_eq!(out.busy_started, Some(BusyCause::OffhookIdle));
    assert!(p.is_busy());
    let out = step(&mut p, None, true);
    assert_eq!(out.tone.period_hz, None);
    assert_eq!(p.current_tone_hz(), 425);
}

#[test]
fn wrong_number_waits_then_busy() {
    let mut p = lifted();
    let out = step(&mut p, Some('9'), true);
    assert!(out.invalid_prefix);
    assert!(out.busy_started.is_none());
    let outs = idle(&mut p, 2999, true);
    assert!(outs.iter().all(|o| o.busy_started.is_none()));
    let out = step(&mut p, None, true);
    assert_eq!(out.busy_started, Some(BusyCause::DialTimeout));
    let out = step(&mut p, Some('5'), true);
    assert_eq!(out.accepted_digit, None);
}

#[test]
fn first_digit_needs_guard_after_lifting() {
    let mut p = Phone::new();
    idle(&mut p, 50, false);
    step(&mut p, None, true);
    let out = step(&mut p, Some('5'), true);
    assert_eq!(out.accepted_digit, None);
    assert_eq!(out.tone.period_hz, Some(770));
}

#[test]
fn held_key_counts_once_and_guard_applies() {
    let mut p = lifted();
    step(&mut p, Some('1'), true);
    let out = step(&mut p, Some('1'), true);
    assert_eq!(out.accepted_digit, None);
    step(&mut p, None, true);
    let out = step(&mut p, Some('1'), true);
    assert_eq!(out.accepted_digit, None);
    assert_eq!(p.dial_len(), 1);
}

#[test]
fn full_buffer_restarts_number() {
    let mut p = lifted();
    dial(&mut p, "99999999");
    assert_eq!(p.dial_len(), 8);
    dial(&mut p, "5");
    assert_eq!(p.dialed_digits(), b"5");
}

#[test]
fn star_is_not_a_digit() {
    let mut p = lifted();
    let out = step(&mut p, remap_key(Some('0')), true);
    assert_eq!(out.accepted_digit, None);
    assert_eq!(out.tone.period_hz, Some(941));
}

#[test]
fn clock_only_advances_on_tick() {
    let mut p = Phone::new();
    p.tick(TickInputs { tick: false, pressed_key: None, handset_up: false, tone_max: MAX });
    assert_eq!(p.now_ms(), 0);
    step(&mut p, None, false);
    assert_eq!(p.now_ms(), 1);
}
