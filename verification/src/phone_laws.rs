use vstd::prelude::*;

use crate::keypad::{dtmf_spec, is_digit, row_frequency};
use crate::player::{
    feed_spec, frame_spec, lemma_frame_roundtrip, lemma_push_keeps_wf, pending_wf, push_spec,
    CMD_TRACK_FINISHED,
};
use crate::phone::{
    accepts_digit, append_digit, clock_phase, desired_duty, desired_tone_hz, handset_phase, init_spec,
    key_event, key_phase, player_byte_spec, pre_tone_state, ring_phase, step_spec, timeout_phase,
    tone_phase, BusyCause, PhoneView, TickInputs, ToneCommand, DIAL_BUF_LEN, DIAL_TIMEOUT_MS,
    KEY_EVENT_GUARD_MS, OFFHOOK_IDLE_TIMEOUT_MS,
};
use crate::routes::{find_route_spec, lemma_route_table_shape, route_index, route_table};
use crate::tones::{elapsed_ms, LINE_TONE_HZ};

verus! {

/// The dial buffer holds at most its capacity of ASCII decimal digits.
pub open spec fn dial_digits_wf(d: Seq<u8>) -> bool {
    d.len() <= DIAL_BUF_LEN && forall|k: int| 0 <= k < d.len() ==> 0x30 <= #[trigger] d[k] <= 0x39
}

/// `total` and `file` are the ringing time and track of some route.
pub open spec fn is_route_answer(total: u32, file: u16) -> bool {
    exists|i: int| 0 <= i < route_table().len() && (#[trigger] route_table()[i]).2 == total && route_table()[i].1 == file
}

/// Whether the call state is cleared, as it is while the handset is down.
pub open spec fn call_cleared(s: PhoneView) -> bool {
    !s.playing && !s.ringing && !s.busy_mode && !s.number_accepted && !s.dialing_started && s.dialed.len() == 0
}

/// The part of the invariant that also holds between the phases of a pass.
pub open spec fn core_inv(s: PhoneView) -> bool {
    &&& dial_digits_wf(s.dialed)
    &&& find_route_spec(s.dialed) is None
    &&& pending_wf(s.parser)
    &&& s.ringing ==> !s.busy_mode && !s.number_accepted && s.dialed.len() == 0
        && is_route_answer(s.ring_total_ms, s.ring_answer_file_index)
    &&& !s.tone_enabled ==> s.current_tone_hz == 0 && s.current_tone_duty == 0
    &&& s.tone_enabled ==> s.current_tone_hz != 0
}

/// What holds of the exchange between any two passes of the main loop.
pub open spec fn phone_inv(s: PhoneView) -> bool {
    &&& core_inv(s)
    &&& !s.prev_handset_up ==> call_cleared(s)
}

proof fn lemma_digit_byte(c: char)
    requires
        is_digit(c),
    ensures
        0x30 <= (c as u8) <= 0x39,
{
}

proof fn lemma_empty_is_no_route()
    ensures
        find_route_spec(Seq::<u8>::empty()) is None,
{
    lemma_route_table_shape();
    assert(route_table()[0].0.len() >= 1);
    assert(route_table()[1].0.len() >= 1);
    assert(route_table()[2].0.len() >= 1);
}

/// The exchange starts in a state where its invariant holds.
pub proof fn lemma_init_inv()
    ensures
        phone_inv(init_spec()),
{
    lemma_empty_is_no_route();
}

proof fn lemma_pre_tone_inv(s: PhoneView, i: TickInputs)
    requires
        phone_inv(s),
    ensures
        core_inv(pre_tone_state(s, i)),
        pre_tone_state(s, i).prev_handset_up == i.handset_up,
        !i.handset_up ==> call_cleared(pre_tone_state(s, i)),
{
    lemma_empty_is_no_route();
    lemma_route_table_shape();
    let pressed = i.pressed_key;
    let up = i.handset_up;
    let s1 = clock_phase(s, i.tick);
    let s2 = handset_phase(s1, pressed, up).0;
    assert(core_inv(s2));
    assert(!up ==> call_cleared(s2));
    let s3 = key_phase(s2, pressed, up).0;
    if key_event(s2, pressed, up) && accepts_digit(s2, pressed->0) {
        let key = pressed->0;
        lemma_digit_byte(key);
        let d = append_digit(s2.dialed, key as u8);
        assert(dial_digits_wf(d));
        if let Some(idx) = route_index(d) {
            assert(is_route_answer(route_table()[idx].2, route_table()[idx].1));
        }
    }
    assert(core_inv(s3));
    assert(!up ==> call_cleared(s3));
    let s4 = ring_phase(s3, up).0;
    assert(core_inv(s4));
    assert(!up ==> call_cleared(s4));
    let s5 = timeout_phase(s4, pressed, up).0;
    assert(core_inv(s5));
    assert(!up ==> call_cleared(s5));
}

/// Every pass of the main loop keeps the invariant.
pub proof fn lemma_step_keeps_inv(s: PhoneView, i: TickInputs)
    requires
        phone_inv(s),
    ensures
        phone_inv(step_spec(s, i).0),
{
    lemma_pre_tone_inv(s, i);
}

/// Every byte from the player keeps the invariant.
pub proof fn lemma_player_byte_keeps_inv(s: PhoneView, b: u8)
    requires
        phone_inv(s),
    ensures
        phone_inv(player_byte_spec(s, b).0),
{
    lemma_push_keeps_wf(s.parser, b);
}

/// Putting the handset down (or keeping it down) clears the call, turns the
/// indicator and the tone off, and stops a track exactly when one was playing
/// with the handset up before.
pub proof fn lemma_handset_down(s: PhoneView, i: TickInputs)
    requires
        phone_inv(s),
        !i.handset_up,
    ensures
        call_cleared(step_spec(s, i).0),
        !step_spec(s, i).0.tone_enabled,
        step_spec(s, i).0.current_tone_hz == 0,
        !step_spec(s, i).1.led_on,
        step_spec(s, i).1.stop_playback == (s.prev_handset_up && s.playing),
        step_spec(s, i).1.play_file is None,
        step_spec(s, i).1.accepted_digit is None,
        step_spec(s, i).1.matched_route is None,
        step_spec(s, i).1.busy_started is None,
        step_spec(s, i).1.tone == (ToneCommand { silence: s.tone_enabled, period_hz: None, duty: None }),
{
}

/// A tone that the exchange can produce: the line tone or a DTMF low frequency.
pub open spec fn is_exchange_tone(hz: u32) -> bool {
    hz == LINE_TONE_HZ || exists|r: int| 0 <= r < 4 && hz == #[trigger] row_frequency(r)
}

/// After every pass the tone output plays exactly the tone the handset should
/// hear, at the configured level, and it is switched on exactly when that
/// tone is not silence.
pub proof fn lemma_tone_tracks_desired(s: PhoneView, i: TickInputs)
    requires
        phone_inv(s),
    ensures
        ({
            let hz = desired_tone_hz(pre_tone_state(s, i), i.pressed_key, i.handset_up);
            let t = step_spec(s, i).0;
            &&& t.current_tone_hz == hz
            &&& t.tone_enabled == (hz != 0)
            &&& hz != 0 ==> t.current_tone_duty == desired_duty(i.tone_max) && is_exchange_tone(hz)
        }),
{
    lemma_pre_tone_inv(s, i);
    let s6 = pre_tone_state(s, i);
    let hz = desired_tone_hz(s6, i.pressed_key, i.handset_up);
    let t = step_spec(s, i).0;
    assert(t == tone_phase(s6, hz, desired_duty(i.tone_max)).0);
    if hz != 0 && hz != LINE_TONE_HZ {
        let k = i.pressed_key->0;
        if let Some((r, c)) = crate::keypad::key_position(k) {
            assert(hz == row_frequency(r));
        }
    }
}

/// Dialing the last digit of a route's number, on an idle line with the
/// handset up, starts ringing for that route with the dial buffer emptied;
/// the handset hears the digit's tone and the line does not go busy.
pub proof fn lemma_dialing_route_starts_ringing(s: PhoneView, i: TickInputs, k: char)
    requires
        i.handset_up,
        i.pressed_key == Some(k),
        is_digit(k),
        s.prev_pressed_key is None,
        elapsed_ms(clock_phase(s, i.tick).now_ms, s.last_digit_event_ms) >= KEY_EVENT_GUARD_MS,
        !s.busy_mode,
        !s.number_accepted,
        !s.ringing,
        !s.playing,
        find_route_spec(append_digit(s.dialed, k as u8)) is Some,
    ensures
        ({
            let r = find_route_spec(append_digit(s.dialed, k as u8))->0;
            let (t, o) = step_spec(s, i);
            &&& o.accepted_digit == Some(k)
            &&& o.matched_route == Some((r.2, r.1))
            &&& t.ringing
            &&& t.ring_total_ms == r.2
            &&& t.ring_answer_file_index == r.1
            &&& t.ring_start_ms == clock_phase(s, i.tick).now_ms
            &&& t.dialed.len() == 0
            &&& o.busy_started is None
            &&& o.play_file is None
            &&& t.current_tone_hz == (dtmf_spec(k)->0).0
        }),
{
    lemma_route_table_shape();
    let d = append_digit(s.dialed, k as u8);
    let idx = route_index(d)->0;
    assert(route_table()[idx].2 > 0);
}

/// A pass that takes a digit never makes the line busy: a wrong number is
/// only answered with the busy tone after the dial timeout.
pub proof fn lemma_digit_never_busy(s: PhoneView, i: TickInputs)
    ensures
        step_spec(s, i).1.accepted_digit is Some ==> step_spec(s, i).1.busy_started is None,
{
}

/// Once the ringing time of a call has passed with the handset up, the
/// route's track plays, the call counts as connected, and the tone goes silent.
pub proof fn lemma_ringing_ends_in_playback(s: PhoneView, i: TickInputs)
    requires
        phone_inv(s),
        i.handset_up,
        s.ringing,
        elapsed_ms(clock_phase(s, i.tick).now_ms, s.ring_start_ms) >= s.ring_total_ms,
    ensures
        step_spec(s, i).1.play_file == Some(s.ring_answer_file_index),
        step_spec(s, i).0.playing,
        step_spec(s, i).0.number_accepted,
        !step_spec(s, i).0.ringing,
        !step_spec(s, i).0.busy_mode,
        step_spec(s, i).0.current_tone_hz == 0,
{
}

/// Bytes from the player fed to the exchange one after the other.
pub open spec fn feed_phone(s: PhoneView, bytes: Seq<u8>) -> PhoneView
    decreases bytes.len(),
{
    if bytes.len() == 0 {
        s
    } else {
        player_byte_spec(feed_phone(s, bytes.drop_last()), bytes.last()).0
    }
}

/// Whether a report is the player's track-finished notice.
pub open spec fn is_track_finished(r: Option<(u8, u16)>) -> bool {
    r matches Some((cmd, _)) && cmd == CMD_TRACK_FINISHED
}

proof fn lemma_feed_phone(s: PhoneView, bytes: Seq<u8>)
    ensures
        feed_phone(s, bytes) == (PhoneView {
            parser: feed_spec(s.parser, bytes).0,
            playing: s.playing && forall|k: int| 0 <= k < bytes.len()
                ==> !is_track_finished(#[trigger] feed_spec(s.parser, bytes).1[k]),
            ..s
        }),
    decreases bytes.len(),
{
    if bytes.len() > 0 {
        lemma_feed_phone(s, bytes.drop_last());
        crate::player::lemma_feed_len(s.parser, bytes);
        crate::player::lemma_feed_len(s.parser, bytes.drop_last());
        let outs0 = feed_spec(s.parser, bytes.drop_last()).1;
        let outs = feed_spec(s.parser, bytes).1;
        assert(outs == outs0.push(push_spec(feed_spec(s.parser, bytes.drop_last()).0, bytes.last()).1));
        assert forall|k: int| 0 <= k < bytes.len() - 1 implies #[trigger] outs[k] == outs0[k] by {}
        if s.playing && forall|k: int| 0 <= k < bytes.len() ==> !is_track_finished(#[trigger] outs[k]) {
            assert forall|k: int| 0 <= k < bytes.len() - 1 implies !is_track_finished(#[trigger] outs0[k]) by {
                assert(outs[k] == outs0[k]);
            }
            assert(!is_track_finished(outs[bytes.len() - 1]));
        }
        if !(s.playing && forall|k: int| 0 <= k < bytes.len() - 1 ==> !is_track_finished(#[trigger] outs0[k])) {
            if s.playing {
                let k = choose|k: int| 0 <= k < bytes.len() - 1 && is_track_finished(#[trigger] outs0[k]);
                assert(outs[k] == outs0[k]);
            }
        }
    }
}

/// The player's track-finished frame, received by an exchange that waits for
/// a frame, ends playback and changes nothing else.
pub proof fn lemma_track_finished_ends_playback(s: PhoneView, param: u16)
    requires
        s.parser is None,
    ensures
        feed_phone(s, frame_spec(CMD_TRACK_FINISHED, param)) == (PhoneView { playing: false, ..s }),
{
    let f = frame_spec(CMD_TRACK_FINISHED, param);
    lemma_frame_roundtrip(CMD_TRACK_FINISHED, param);
    lemma_feed_phone(s, f);
    assert(is_track_finished(feed_spec(s.parser, f).1[9]));
}

/// With the handset up and nothing dialed, the line goes busy once the idle
/// time-out after lifting the handset has passed.
pub proof fn lemma_offhook_idle_goes_busy(s: PhoneView, i: TickInputs)
    requires
        phone_inv(s),
        i.handset_up,
        s.prev_handset_up,
        i.pressed_key is None,
        !s.dialing_started,
        !s.busy_mode,
        !s.number_accepted,
        !s.ringing,
        elapsed_ms(clock_phase(s, i.tick).now_ms, s.offhook_start_ms) >= OFFHOOK_IDLE_TIMEOUT_MS,
    ensures
        step_spec(s, i).1.busy_started == Some(BusyCause::OffhookIdle),
        step_spec(s, i).0.busy_mode,
        step_spec(s, i).0.busy_start_ms == clock_phase(s, i.tick).now_ms,
{
}

/// With digits dialed that complete no number and no key held, the line goes
/// busy once the dial time-out after the last digit has passed.
pub proof fn lemma_incomplete_number_goes_busy(s: PhoneView, i: TickInputs)
    requires
        phone_inv(s),
        i.handset_up,
        s.prev_handset_up,
        i.pressed_key is None,
        s.dialing_started,
        s.dialed.len() > 0,
        !s.busy_mode,
        !s.number_accepted,
        !s.ringing,
        elapsed_ms(clock_phase(s, i.tick).now_ms, s.last_keypress_ms) >= DIAL_TIMEOUT_MS,
    ensures
        step_spec(s, i).1.busy_started == Some(BusyCause::DialTimeout),
        step_spec(s, i).0.busy_mode,
        step_spec(s, i).0.busy_start_ms == clock_phase(s, i.tick).now_ms,
{
}

/// A key held down over several passes gives one digit: no digit is taken
/// in a pass whose previous pass already saw a key held.
pub proof fn lemma_held_key_counts_once(s: PhoneView, i: TickInputs)
    ensures
        step_spec(s, i).0.prev_pressed_key == i.pressed_key,
        s.prev_pressed_key is Some ==> step_spec(s, i).1.accepted_digit is None,
{
}

/// Every accepted digit restarts the dial time-out and the key guard: both
/// are counted from the pass that took the latest digit.
pub proof fn lemma_digit_restarts_dial_timeout(s: PhoneView, i: TickInputs)
    ensures
        step_spec(s, i).1.accepted_digit is Some ==> {
            &&& step_spec(s, i).0.last_keypress_ms == clock_phase(s, i.tick).now_ms
            &&& step_spec(s, i).0.last_digit_event_ms == clock_phase(s, i.tick).now_ms
        },
{
}

/// The dial time-out only fires once the dial time-out has passed since the
/// last accepted digit, with digits dialed and no key held.
pub proof fn lemma_dial_timeout_after_last_digit(s: PhoneView, i: TickInputs)
    ensures
        step_spec(s, i).1.busy_started == Some(BusyCause::DialTimeout) ==> {
            &&& i.pressed_key is None
            &&& s.dialed.len() > 0
            &&& elapsed_ms(clock_phase(s, i.tick).now_ms, s.last_keypress_ms) >= 3000
        },
{
}

/// With the handset up, no key held, and the line neither busy, playing,
/// ringing nor connected, the handset hears the line tone exactly while no key
/// was pressed since lifting it, and silence once dialing has started.
pub proof fn lemma_line_tone_only_before_dialing(s: PhoneView, i: TickInputs)
    requires
        phone_inv(s),
        i.handset_up,
        i.pressed_key is None,
    ensures
        ({
            let t = step_spec(s, i).0;
            (!t.busy_mode && !t.playing && !t.ringing && !t.number_accepted)
                ==> t.current_tone_hz == (if t.dialing_started { 0u32 } else { 425u32 })
        }),
        step_spec(s, i).0.dialing_started == (s.prev_handset_up && s.dialing_started),
{
    lemma_pre_tone_inv(s, i);
}

} // verus!
