use dialtone::tones::{busy_tone_on, elapsed_since, ring_tone_on_for_total};

#[test]
fn busy_long_then_short_cadence() {
    assert!(busy_tone_on(0, 0));
    assert!(busy_tone_on(499, 0));
    assert!(!busy_tone_on(500, 0));
    assert!(!busy_tone_on(999, 0));
    assert!(busy_tone_on(1000, 0));
    assert!(!busy_tone_on(11999, 0));
    assert!(busy_tone_on(12000, 0));
    assert!(busy_tone_on(12199, 0));
    assert!(!busy_tone_on(12200, 0));
    assert!(busy_tone_on(12400, 0));
}

#[test]
fn busy_cadence_across_clock_wrap() {
    let start = u32::MAX - 99;
    assert!(busy_tone_on(start, start));
    assert!(!busy_tone_on(400, start));
    assert_eq!(elapsed_since(400, start), 500);
}

#[test]
fn ring_cadence_and_end() {
    assert!(ring_tone_on_for_total(0, 4000, 1000, 3000));
    assert!(ring_tone_on_for_total(999, 4000, 1000, 3000));
    assert!(!ring_tone_on_for_total(1000, 4000, 1000, 3000));
    assert!(!ring_tone_on_for_total(3999, 4000, 1000, 3000));
    assert!(ring_tone_on_for_total(4000, 7000, 1000, 3000));
    assert!(!ring_tone_on_for_total(7000, 7000, 1000, 3000));
    assert!(!ring_tone_on_for_total(5, 0, 0, 0));
}
