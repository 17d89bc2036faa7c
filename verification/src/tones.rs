use vstd::prelude::*;

verus! {

/// Frequency of the line, ringing and busy tones, in Hz.
pub const LINE_TONE_HZ: u32 = 425;
/// Ringing cadence: tone on, then off, in milliseconds.
pub const RING_ON_MS: u32 = 1000;
pub const RING_OFF_MS: u32 = 3000;
/// After this long in the busy state the cadence switches from long to short.
pub const BUSY_STAGE_SWITCH_MS: u32 = 12000;
pub const BUSY_LONG_ON_MS: u32 = 500;
pub const BUSY_LONG_OFF_MS: u32 = 500;
pub const BUSY_SHORT_ON_MS: u32 = 200;
pub const BUSY_SHORT_OFF_MS: u32 = 200;

/// Milliseconds from `since` to `now` on a wrapping 32-bit millisecond clock.
pub open spec fn elapsed_ms(now: u32, since: u32) -> int {
    (now - since) % 0x1_0000_0000
}

/// Whether a cadence of `on_ms` on and `off_ms` off is in its on part
/// `elapsed` milliseconds after it started.
pub open spec fn cadence_on(elapsed: int, on_ms: int, off_ms: int) -> bool {
    elapsed % (on_ms + off_ms) < on_ms
}

/// The busy tone: a long cadence for the first stage, a short one after.
pub open spec fn busy_tone_on_spec(now_ms: u32, busy_start_ms: u32) -> bool {
    let e = elapsed_ms(now_ms, busy_start_ms);
    if e < BUSY_STAGE_SWITCH_MS {
        cadence_on(e, BUSY_LONG_ON_MS as int, BUSY_LONG_OFF_MS as int)
    } else {
        cadence_on(e, BUSY_SHORT_ON_MS as int, BUSY_SHORT_OFF_MS as int)
    }
}

/// The ringing tone: the cadence for `total_ms`, then silence.
pub open spec fn ring_tone_on_spec(elapsed_ms: u32, total_ms: u32, on_ms: u32, off_ms: u32) -> bool {
    elapsed_ms < total_ms && cadence_on(elapsed_ms as int, on_ms as int, off_ms as int)
}

proof fn lemma_wrapping_sub_elapsed(now: u32, since: u32)
    ensures
        now.wrapping_sub(since) as int == elapsed_ms(now, since),
{
    if now >= since {
        assert((now - since) % 0x1_0000_0000 == now - since);
    } else {
        assert((now - since) % 0x1_0000_0000 == now - since + 0x1_0000_0000) by {
            vstd::arithmetic::div_mod::lemma_fundamental_div_mod_converse(
                now - since, 0x1_0000_0000, -1, now - since + 0x1_0000_0000);
        }
    }
}

/// The wrapping difference `now - since` of two readings of the millisecond clock.
pub fn elapsed_since(now: u32, since: u32) -> (e: u32)
    ensures
        e as int == elapsed_ms(now, since),
{
    proof { lemma_wrapping_sub_elapsed(now, since); }
    now.wrapping_sub(since)
}

pub fn busy_tone_on(now_ms: u32, busy_start_ms: u32) -> (on: bool)
    ensures
        on == busy_tone_on_spec(now_ms, busy_start_ms),
{
    let elapsed = elapsed_since(now_ms, busy_start_ms);
    if elapsed < BUSY_STAGE_SWITCH_MS {
        let period = BUSY_LONG_ON_MS + BUSY_LONG_OFF_MS;
        (elapsed % period) < BUSY_LONG_ON_MS
    } else {
        let period = BUSY_SHORT_ON_MS + BUSY_SHORT_OFF_MS;
        (elapsed % period) < BUSY_SHORT_ON_MS
    }
}

pub fn ring_tone_on_for_total(elapsed_ms: u32, total_ms: u32, on_ms: u32, off_ms: u32) -> (on: bool)
    requires
        elapsed_ms < total_ms ==> 0 < on_ms + off_ms <= u32::MAX,
    ensures
        on == ring_tone_on_spec(elapsed_ms, total_ms, on_ms, off_ms),
{
    if elapsed_ms >= total_ms {
        return false;
    }
    let period = on_ms + off_ms;
    (elapsed_ms % period) < on_ms
}

/// The busy tone depends only on the time since the line went busy, counted
/// on the wrapping 32-bit clock: for its first 12 s it is on for the first
/// 500 ms of every second, after that for the first 200 ms of every 400 ms.
pub proof fn lemma_busy_tone_cadence(now_ms: u32, busy_start_ms: u32)
    ensures
        ({
            let e = if now_ms >= busy_start_ms {
                now_ms - busy_start_ms
            } else {
                now_ms + 0x1_0000_0000 - busy_start_ms
            };
            busy_tone_on_spec(now_ms, busy_start_ms) == if e < 12000 { e % 1000 < 500 } else { e % 400 < 200 }
        }),
{
    lemma_wrapping_sub_elapsed(now_ms, busy_start_ms);
}

/// Shifting both clock readings by the same amount (wrapping) leaves the busy
/// tone unchanged.
pub proof fn lemma_busy_tone_shift(now_ms: u32, busy_start_ms: u32, shift: u32)
    ensures
        busy_tone_on_spec(
            ((now_ms + shift) % 0x1_0000_0000) as u32,
            ((busy_start_ms + shift) % 0x1_0000_0000) as u32,
        ) == busy_tone_on_spec(now_ms, busy_start_ms),
{
    let n2 = ((now_ms + shift) % 0x1_0000_0000) as u32;
    let b2 = ((busy_start_ms + shift) % 0x1_0000_0000) as u32;
    lemma_busy_tone_cadence(now_ms, busy_start_ms);
    lemma_busy_tone_cadence(n2, b2);
    let e1 = if now_ms >= busy_start_ms { now_ms - busy_start_ms } else { now_ms + 0x1_0000_0000 - busy_start_ms };
    let e2 = if n2 >= b2 { n2 - b2 } else { n2 + 0x1_0000_0000 - b2 };
    assert(e1 == e2) by {
        if now_ms + shift >= 0x1_0000_0000 {
            assert(n2 == now_ms + shift - 0x1_0000_0000);
        } else {
            assert(n2 == now_ms + shift);
        }
        if busy_start_ms + shift >= 0x1_0000_0000 {
            assert(b2 == busy_start_ms + shift - 0x1_0000_0000);
        } else {
            assert(b2 == busy_start_ms + shift);
        }
    }
}

/// While the ringing time lasts, the ringing tone sounds for the first
/// `on_ms` of every period of `on_ms + off_ms` and is silent for the rest;
/// after it, the tone is silent.
pub proof fn lemma_ring_tone_cadence(elapsed_ms: u32, total_ms: u32, on_ms: u32, off_ms: u32)
    ensures
        elapsed_ms >= total_ms ==> !ring_tone_on_spec(elapsed_ms, total_ms, on_ms, off_ms),
        elapsed_ms < total_ms ==> (ring_tone_on_spec(elapsed_ms, total_ms, on_ms, off_ms)
            <==> (elapsed_ms as int) % (on_ms as int + off_ms as int) < on_ms as int),
{
}

} // verus!
