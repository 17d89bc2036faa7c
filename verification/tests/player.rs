use dialtone::player::{
    dfplayer_command_frame, frame_checksum, play_root_index_frame, stop_frame, DfFrameParser,
};

#[test]
fn play_track_one_frame() {
    assert_eq!(
        play_root_index_frame(1),
        [0x7E, 0xFF, 0x06, 0x03, 0x00, 0x00, 0x01, 0xFE, 0xF7, 0xEF]
    );
}

#[test]
fn stop_frame_bytes() {
    assert_eq!(stop_frame(), [0x7E, 0xFF, 0x06, 0x16, 0x00, 0x00, 0x00, 0xFE, 0xE5, 0xEF]);
}

#[test]
fn volume_frame_bytes() {
    assert_eq!(
        dfplayer_command_frame(0x06, 18),
        [0x7E, 0xFF, 0x06, 0x06, 0x00, 0x00, 0x12, 0xFE, 0xE3, 0xEF]
    );
    assert_eq!(frame_checksum(0x06, 18), 0xFEE3);
}

#[test]
fn checksum_cancels_sum() {
    for (cmd, param) in [(0x03u8, 1u16), (0x3D, 0x1234), (0xFF, 0xFFFF), (0, 0)] {
        let f = dfplayer_command_frame(cmd, param);
        let sum: u32 = f[1..7].iter().map(|b| *b as u32).sum::<u32>() + u16::from_be_bytes([f[7], f[8]]) as u32;
        assert_eq!(sum % 0x1_0000, 0);
    }
}

#[test]
fn parser_round_trip() {
    for (cmd, param) in [(0x3Du8, 7u16), (0x03, 0xBEEF), (0x16, 0)] {
        let mut p = DfFrameParser::new();
        let f = dfplayer_command_frame(cmd, param);
        for b in &f[..9] {
            assert_eq!(p.push(*b), None);
        }
        assert_eq!(p.push(f[9]), Some((cmd, param)));
    }
}

#[test]
fn parser_skips_noise_and_bad_frames() {
    let mut p = DfFrameParser::new();
    for b in [0x00u8, 0x12, 0xEF] {
        assert_eq!(p.push(b), None);
    }
    let mut bad = dfplayer_command_frame(0x3D, 1);
    bad[9] = 0x00;
    for b in bad {
        assert_eq!(p.push(b), None);
    }
    let good = dfplayer_command_frame(0x3D, 2);
    let mut last = None;
    for b in good {
        last = p.push(b);
    }
    assert_eq!(last, Some((0x3D, 2)));
}
