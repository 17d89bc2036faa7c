use vstd::prelude::*;

verus! {

/// The character printed on the key at `row`, `col` of the 4x4 keypad
/// (rows `123A`, `456B`, `789C`, `*0#D`).
pub open spec fn layout_key(row: int, col: int) -> char {
    if row == 0 {
        if col == 0 { '1' } else if col == 1 { '2' } else if col == 2 { '3' } else { 'A' }
    } else if row == 1 {
        if col == 0 { '4' } else if col == 1 { '5' } else if col == 2 { '6' } else { 'B' }
    } else if row == 2 {
        if col == 0 { '7' } else if col == 1 { '8' } else if col == 2 { '9' } else { 'C' }
    } else {
        if col == 0 { '*' } else if col == 1 { '0' } else if col == 2 { '#' } else { 'D' }
    }
}

/// Row and column of a keypad character, `None` for any other character.
pub open spec fn key_position(c: char) -> Option<(int, int)> {
    if c == '1' { Some((0, 0)) }
    else if c == '2' { Some((0, 1)) }
    else if c == '3' { Some((0, 2)) }
    else if c == 'A' { Some((0, 3)) }
    else if c == '4' { Some((1, 0)) }
    else if c == '5' { Some((1, 1)) }
    else if c == '6' { Some((1, 2)) }
    else if c == 'B' { Some((1, 3)) }
    else if c == '7' { Some((2, 0)) }
    else if c == '8' { Some((2, 1)) }
    else if c == '9' { Some((2, 2)) }
    else if c == 'C' { Some((2, 3)) }
    else if c == '*' { Some((3, 0)) }
    else if c == '0' { Some((3, 1)) }
    else if c == '#' { Some((3, 2)) }
    else if c == 'D' { Some((3, 3)) }
    else { None }
}

/// Whether `c` is one of the sixteen keypad characters.
pub open spec fn is_keypad_key(c: char) -> bool {
    key_position(c) is Some
}

/// Whether `c` is an ASCII decimal digit.
pub open spec fn is_digit(c: char) -> bool {
    '0' <= c && c <= '9'
}

/// The text logged for a scanned key: the key itself for a keypad key,
/// `none` when nothing is pressed, `unknown` otherwise.
pub open spec fn key_label_spec(key: Option<char>) -> Seq<char> {
    match key {
        None => "none"@,
        Some(c) => if is_keypad_key(c) { seq![c] } else { "unknown"@ },
    }
}

/// The wiring of the keypad module swaps keys pairwise: this is the
/// character that a scanned character stands for.
pub open spec fn remap_char(c: char) -> char {
    if c == '5' { '1' }
    else if c == '4' { '2' }
    else if c == 'B' { '3' }
    else if c == '6' { 'A' }
    else if c == '2' { '4' }
    else if c == '1' { '5' }
    else if c == 'A' { '6' }
    else if c == '3' { 'B' }
    else if c == '8' { '7' }
    else if c == '7' { '8' }
    else if c == 'C' { '9' }
    else if c == '9' { 'C' }
    else if c == '0' { '*' }
    else if c == '*' { '0' }
    else if c == 'D' { '#' }
    else if c == '#' { 'D' }
    else { c }
}

pub open spec fn remap_key_spec(raw: Option<char>) -> Option<char> {
    match raw {
        Some(c) => Some(remap_char(c)),
        None => None,
    }
}

/// Low-group (row) DTMF frequency in Hz.
pub open spec fn row_frequency(row: int) -> u32 {
    if row == 0 { 697 } else if row == 1 { 770 } else if row == 2 { 852 } else { 941 }
}

/// High-group (column) DTMF frequency in Hz.
pub open spec fn col_frequency(col: int) -> u32 {
    if col == 0 { 1209 } else if col == 1 { 1336 } else if col == 2 { 1477 } else { 1633 }
}

/// The DTMF tone pair of a keypad key: its row frequency and its column frequency.
pub open spec fn dtmf_spec(key: char) -> Option<(u32, u32)> {
    match key_position(key) {
        Some((r, c)) => Some((row_frequency(r), col_frequency(c))),
        None => None,
    }
}

pub fn is_digit_key(key: char) -> (r: bool)
    ensures
        r == is_digit(key),
{
    matches!(key, '0'..='9')
}

pub fn key_label(key: Option<char>) -> (label: &'static str)
    ensures
        label@ == key_label_spec(key),
{
    match key {
        Some('1') => { proof { reveal_strlit("1"); } "1" }
        Some('2') => { proof { reveal_strlit("2"); } "2" }
        Some('3') => { proof { reveal_strlit("3"); } "3" }
        Some('A') => { proof { reveal_strlit("A"); } "A" }
        Some('4') => { proof { reveal_strlit("4"); } "4" }
        Some('5') => { proof { reveal_strlit("5"); } "5" }
        Some('6') => { proof { reveal_strlit("6"); } "6" }
        Some('B') => { proof { reveal_strlit("B"); } "B" }
        Some('7') => { proof { reveal_strlit("7"); } "7" }
        Some('8') => { proof { reveal_strlit("8"); } "8" }
        Some('9') => { proof { reveal_strlit("9"); } "9" }
        Some('C') => { proof { reveal_strlit("C"); } "C" }
        Some('*') => { proof { reveal_strlit("*"); } "*" }
        Some('0') => { proof { reveal_strlit("0"); } "0" }
        Some('#') => { proof { reveal_strlit("#"); } "#" }
        Some('D') => { proof { reveal_strlit("D"); } "D" }
        None => "none",
        _ => "unknown",
    }
}

pub fn remap_key(raw: Option<char>) -> (key: Option<char>)
    ensures
        key == remap_key_spec(raw),
{
    match raw {
        Some('5') => Some('1'),
        Some('4') => Some('2'),
        Some('B') => Some('3'),
        Some('6') => Some('A'),
        Some('2') => Some('4'),
        Some('1') => Some('5'),
        Some('A') => Some('6'),
        Some('3') => Some('B'),
        Some('8') => Some('7'),
        Some('7') => Some('8'),
        Some('C') => Some('9'),
        Some('9') => Some('C'),
        Some('0') => Some('*'),
        Some('*') => Some('0'),
        Some('D') => Some('#'),
        Some('#') => Some('D'),
        _ => raw,
    }
}

pub fn dtmf_frequencies(key: char) -> (freqs: Option<(u32, u32)>)
    ensures
        freqs == dtmf_spec(key),
{
    match key {
        '1' => Some((697, 1209)),
        '2' => Some((697, 1336)),
        '3' => Some((697, 1477)),
        'A' => Some((697, 1633)),
        '4' => Some((770, 1209)),
        '5' => Some((770, 1336)),
        '6' => Some((770, 1477)),
        'B' => Some((770, 1633)),
        '7' => Some((852, 1209)),
        '8' => Some((852, 1336)),
        '9' => Some((852, 1477)),
        'C' => Some((852, 1633)),
        '*' => Some((941, 1209)),
        '0' => Some((941, 1336)),
        '#' => Some((941, 1477)),
        'D' => Some((941, 1633)),
        _ => None,
    }
}

/// What to do after reading the four column inputs while one row is driven low.
#[derive(Clone, Copy, Debug, PartialEq, Eq)]
pub enum ScanStep {
    /// Release the current row and drive the given row low next.
    NextRow(u8),
    /// A key is pressed; the scan ends with it.
    Found(char),
    /// The last row was read and no key is pressed.
    NoKey,
}

/// The first column (left to right) whose input reads low.
pub open spec fn first_low_col(cols_low: Seq<bool>) -> Option<int> {
    if cols_low[0] { Some(0) }
    else if cols_low[1] { Some(1) }
    else if cols_low[2] { Some(2) }
    else if cols_low[3] { Some(3) }
    else { None }
}

/// The key found in `row`, given which columns read low while it is driven.
pub open spec fn row_key(row: int, cols_low: Seq<bool>) -> Option<char> {
    match first_low_col(cols_low) {
        Some(c) => Some(layout_key(row, c)),
        None => None,
    }
}

/// The key that a full scan reports when starting at `row`, given the
/// column readings `m[r]` of every row `r`: rows are tried top to bottom.
pub open spec fn scan_from(row: int, m: Seq<Seq<bool>>) -> Option<char>
    decreases 4 - row,
{
    if row >= 4 || row < 0 {
        None
    } else {
        match row_key(row, m[row]) {
            Some(k) => Some(k),
            None => scan_from(row + 1, m),
        }
    }
}

/// One step of a keypad scan: `row` (0 to 3) is driven low and
/// `cols_low[c]` tells whether column `c` reads low.
pub fn scan_step(row: u8, cols_low: [bool; 4]) -> (step: ScanStep)
    requires
        row < 4,
    ensures
        match row_key(row as int, cols_low@) {
            Some(k) => step == ScanStep::Found(k),
            None => if row < 3 { step == ScanStep::NextRow((row + 1) as u8) } else { step == ScanStep::NoKey },
        },
{
    let keys: [char; 4] = if row == 0 {
        ['1', '2', '3', 'A']
    } else if row == 1 {
        ['4', '5', '6', 'B']
    } else if row == 2 {
        ['7', '8', '9', 'C']
    } else {
        ['*', '0', '#', 'D']
    };
    if cols_low[0] {
        return ScanStep::Found(keys[0]);
    }
    if cols_low[1] {
        return ScanStep::Found(keys[1]);
    }
    if cols_low[2] {
        return ScanStep::Found(keys[2]);
    }
    if cols_low[3] {
        return ScanStep::Found(keys[3]);
    }
    if row < 3 {
        ScanStep::NextRow(row + 1)
    } else {
        ScanStep::NoKey
    }
}

/// Remapping is an involution: remapping a remapped key gives the scanned key back.
pub proof fn lemma_remap_involution(raw: Option<char>)
    ensures
        remap_key_spec(remap_key_spec(raw)) == raw,
{
}

/// Remapping permutes the keypad: a character is a keypad key exactly when
/// its remapped character is one.
pub proof fn lemma_remap_keeps_keypad(c: char)
    ensures
        is_keypad_key(remap_char(c)) == is_keypad_key(c),
{
}

/// The layout and the key positions agree: every position holds a key whose
/// position is that position, and every keypad key sits at its position.
pub proof fn lemma_layout_position(row: int, col: int, c: char)
    ensures
        0 <= row < 4 && 0 <= col < 4 ==> key_position(layout_key(row, col)) == Some((row, col)),
        key_position(c) == Some((row, col)) ==> layout_key(row, col) == c && 0 <= row < 4 && 0 <= col < 4,
{
}

/// The DTMF pair of the key at `row`, `col` is that row's low frequency and
/// that column's high frequency; other characters have no tone.
pub proof fn lemma_dtmf_layout(row: int, col: int, c: char)
    ensures
        0 <= row < 4 && 0 <= col < 4 ==> dtmf_spec(layout_key(row, col)) == Some((row_frequency(row), col_frequency(col))),
        dtmf_spec(c) is Some <==> is_keypad_key(c),
{
}

/// Whether the key at `row`, `col` reads as pressed in the readings `m`.
pub open spec fn pressed_at(m: Seq<Seq<bool>>, row: int, col: int) -> bool {
    m[row][col]
}

/// Whether position `(r2, c2)` comes before `(r1, c1)` in row-major order.
pub open spec fn scanned_before(r2: int, c2: int, r1: int, c1: int) -> bool {
    r2 < r1 || (r2 == r1 && c2 < c1)
}

proof fn lemma_scan_from(row: int, m: Seq<Seq<bool>>)
    requires
        0 <= row <= 4,
        m.len() == 4,
        forall|r: int| 0 <= r < 4 ==> #[trigger] m[r].len() == 4,
    ensures
        scan_from(row, m) is None <==> (forall|r: int, c: int|
            row <= r < 4 && 0 <= c < 4 ==> !pressed_at(m, r, c)),
        scan_from(row, m) is Some ==> exists|r: int, c: int|
            row <= r < 4 && 0 <= c < 4 && pressed_at(m, r, c)
                && scan_from(row, m) == Some(layout_key(r, c))
                && (forall|r2: int, c2: int| row <= r2 < 4 && 0 <= c2 < 4
                    && scanned_before(r2, c2, r, c) ==> !pressed_at(m, r2, c2)),
    decreases 4 - row,
{
    if row < 4 {
        lemma_scan_from(row + 1, m);
        let cols = m[row];
        if cols[0] {
            assert(pressed_at(m, row, 0));
        } else if cols[1] {
            assert(pressed_at(m, row, 1));
        } else if cols[2] {
            assert(pressed_at(m, row, 2));
        } else if cols[3] {
            assert(pressed_at(m, row, 3));
        } else {
            assert forall|c: int| 0 <= c < 4 implies !pressed_at(m, row, c) by {}
            if scan_from(row, m) is Some {
                let (r, c) = choose|r: int, c: int|
                    row + 1 <= r < 4 && 0 <= c < 4 && pressed_at(m, r, c)
                        && scan_from(row + 1, m) == Some(layout_key(r, c))
                        && (forall|r2: int, c2: int| row + 1 <= r2 < 4 && 0 <= c2 < 4
                            && scanned_before(r2, c2, r, c) ==> !pressed_at(m, r2, c2));
                assert(forall|r2: int, c2: int| row <= r2 < 4 && 0 <= c2 < 4
                    && scanned_before(r2, c2, r, c) ==> !pressed_at(m, r2, c2));
            }
        }
    }
}

/// A full scan, rows top to bottom and columns left to right, reports the
/// first pressed key in that order, and no key exactly when none is pressed.
pub proof fn lemma_scan_reports_first_pressed(m: Seq<Seq<bool>>)
    requires
        m.len() == 4,
        forall|r: int| 0 <= r < 4 ==> #[trigger] m[r].len() == 4,
    ensures
        scan_from(0, m) is None <==> (forall|r: int, c: int|
            0 <= r < 4 && 0 <= c < 4 ==> !pressed_at(m, r, c)),
        scan_from(0, m) is Some ==> exists|r: int, c: int|
            0 <= r < 4 && 0 <= c < 4 && pressed_at(m, r, c)
                && scan_from(0, m) == Some(layout_key(r, c))
                && (forall|r2: int, c2: int| 0 <= r2 < 4 && 0 <= c2 < 4
                    && scanned_before(r2, c2, r, c) ==> !pressed_at(m, r2, c2)),
{
    lemma_scan_from(0, m);
}

} // verus!
