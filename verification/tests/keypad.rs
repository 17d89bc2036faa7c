use dialtone::keypad::{dtmf_frequencies, is_digit_key, key_label, remap_key, scan_step, ScanStep};

const KEYS: [char; 16] = ['1', '2', '3', 'A', '4', '5', '6', 'B', '7', '8', '9', 'C', '*', '0', '#', 'D'];

#[test]
fn remap_swaps_wired_pairs() {
    assert_eq!(remap_key(Some('5')), Some('1'));
    assert_eq!(remap_key(Some('4')), Some('2'));
    assert_eq!(remap_key(Some('B')), Some('3'));
    assert_eq!(remap_key(Some('6')), Some('A'));
    assert_eq!(remap_key(Some('8')), Some('7'));
    assert_eq!(remap_key(Some('C')), Some('9'));
    assert_eq!(remap_key(Some('0')), Some('*'));
    assert_eq!(remap_key(Some('D')), Some('#'));
    assert_eq!(remap_key(None), None);
    assert_eq!(remap_key(Some('x')), Some('x'));
}

#[test]
fn remap_is_an_involution_on_all_keys() {
    for k in KEYS {
        let m = remap_key(Some(k));
        assert!(KEYS.contains(&m.unwrap()));
        assert_eq!(remap_key(m), Some(k));
    }
}

#[test]
fn labels_of_keys() {
    for k in KEYS {
        assert_eq!(key_label(Some(k)), k.to_string());
    }
    assert_eq!(key_label(None), "none");
    assert_eq!(key_label(Some('z')), "unknown");
}

#[test]
fn dtmf_pairs() {
    assert_eq!(dtmf_frequencies('1'), Some((697, 1209)));
    assert_eq!(dtmf_frequencies('5'), Some((770, 1336)));
    assert_eq!(dtmf_frequencies('9'), Some((852, 1477)));
    assert_eq!(dtmf_frequencies('D'), Some((941, 1633)));
    assert_eq!(dtmf_frequencies('0'), Some((941, 1336)));
    assert_eq!(dtmf_frequencies('x'), None);
    let rows = [697, 770, 852, 941];
    let cols = [1209, 1336, 1477, 1633];
    for (i, k) in KEYS.iter().enumerate() {
        assert_eq!(dtmf_frequencies(*k), Some((rows[i / 4], cols[i % 4])));
    }
}

#[test]
fn digit_keys() {
    for d in '0'..='9' {
        assert!(is_digit_key(d));
    }
    for k in ['A', 'B', 'C', 'D', '*', '#', '/', ':'] {
        assert!(!is_digit_key(k));
    }
}

#[test]
fn scan_steps_through_rows() {
    assert_eq!(scan_step(0, [false; 4]), ScanStep::NextRow(1));
    assert_eq!(scan_step(2, [false; 4]), ScanStep::NextRow(3));
    assert_eq!(scan_step(3, [false; 4]), ScanStep::NoKey);
    assert_eq!(scan_step(0, [true, false, false, false]), ScanStep::Found('1'));
    assert_eq!(scan_step(1, [false, false, true, true]), ScanStep::Found('6'));
    assert_eq!(scan_step(3, [false, false, false, true]), ScanStep::Found('D'));
    assert_eq!(scan_step(2, [false, true, false, false]), ScanStep::Found('8'));
}

#[test]
fn full_scan_finds_first_key_in_row_major_order() {
    let mut m = [[false; 4]; 4];
    m[2][0] = true;
    m[1][3] = true;
    let mut row: u8 = 0;
    let found = loop {
        match scan_step(row, m[row as usize]) {
            ScanStep::Found(k) => break Some(k),
            ScanStep::NextRow(r) => row = r,
            ScanStep::NoKey => break None,
        }
    };
    assert_eq!(found, Some('B'));
}
