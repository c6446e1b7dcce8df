use m0n1t0r_proxy::ts_mux::{crc32_mpeg2, TsMuxer};

#[test]
fn crc_check_value() {
    assert_eq!(crc32_mpeg2(b"123456789"), 0x0376_E6E7);
    assert_eq!(crc32_mpeg2(&[]), 0xFFFF_FFFF);
}

#[test]
fn header_is_pat_then_pmt() {
    let mut m = TsMuxer::new();
    let h = m.generate_header();
    assert_eq!(h.len(), 376);
    let pat = &h[..188];
    assert_eq!(
        &pat[..21],
        &[
            0x47, 0x40, 0x00, 0x10, 0x00, 0x00, 0xB0, 0x0D, 0x00, 0x01, 0xC1, 0x00, 0x00, 0x00,
            0x01, 0xF0, 0x00, 0x2A, 0xB1, 0x04, 0xB2
        ]
    );
    assert!(pat[21..].iter().all(|&b| b == 0xFF));
    let pmt = &h[188..];
    assert_eq!(&pmt[..5], &[0x47, 0x50, 0x00, 0x10, 0x00]);
    assert_eq!(pmt[5], 0x02);
    let crc = crc32_mpeg2(&pmt[5..22]);
    assert_eq!(&pmt[22..26], &crc.to_be_bytes());
    assert!(pmt[26..].iter().all(|&b| b == 0xFF));
    // Counters advance.
    let h2 = m.generate_header();
    assert_eq!(h2[3], 0x11);
    assert_eq!(h2[188 + 3], 0x11);
}

#[test]
fn small_frame_fills_one_padded_packet() {
    let mut m = TsMuxer::new();
    let out = m.mux_video(&[0xAA, 0xBB], 0);
    assert_eq!(out.len(), 188);
    // PES: 4 start bytes, length 10, flags, PTS, then the frame: 16 bytes.
    assert_eq!(&out[..4], &[0x47, 0x41, 0x00, 0x30]);
    assert_eq!(out[4], 167);
    assert_eq!(out[5], 0x00);
    assert!(out[6..172].iter().all(|&b| b == 0xFF));
    assert_eq!(
        &out[172..],
        &[0x00, 0x00, 0x01, 0xE0, 0x00, 0x0A, 0x80, 0x80, 0x05, 0x21, 0x00, 0x01, 0x00, 0x01, 0xAA, 0xBB]
    );
}

#[test]
fn pts_is_spread_over_five_bytes() {
    let mut m = TsMuxer::new();
    let pts: u64 = 0x1_2345_6789;
    let out = m.mux_video(&[], pts);
    let pes = &out[188 - 14..];
    assert_eq!(
        &pes[9..14],
        &[
            (0x21 | ((pts >> 29) & 0x0E)) as u8,
            ((pts >> 22) & 0xFF) as u8,
            (((pts >> 14) & 0xFE) | 1) as u8,
            ((pts >> 7) & 0xFF) as u8,
            (((pts << 1) & 0xFE) | 1) as u8
        ]
    );
    assert_eq!(pes[9], 0x29);
}

#[test]
fn large_frame_spans_packets() {
    let mut m = TsMuxer::new();
    let frame = vec![7u8; 400];
    let out = m.mux_video(&frame, 90_000);
    // 414 PES bytes: 184 + 184 + 46.
    assert_eq!(out.len(), 3 * 188);
    assert_eq!(&out[..4], &[0x47, 0x41, 0x00, 0x10]);
    assert_eq!(&out[188..192], &[0x47, 0x01, 0x00, 0x11]);
    assert_eq!(&out[376..380], &[0x47, 0x01, 0x00, 0x32]);
    assert_eq!(out[380], 183 - 46);
    assert!(out[564 - 46..].iter().all(|&b| b == 7));
    let next = m.mux_video(&[1], 0);
    assert_eq!(next[3], 0x33);
}

#[test]
fn exactly_183_byte_remainder() {
    let mut m = TsMuxer::new();
    // 14 header bytes + 169 = 183 PES bytes.
    let out = m.mux_video(&vec![9u8; 169], 0);
    assert_eq!(out.len(), 188);
    assert_eq!(&out[..5], &[0x47, 0x41, 0x00, 0x30, 0x00]);
    assert_eq!(&out[5..9], &[0x00, 0x00, 0x01, 0xE0]);
}

#[test]
fn oversized_frame_has_unbounded_length() {
    let mut m = TsMuxer::new();
    let out = m.mux_video(&vec![0u8; 70_000], 0);
    assert_eq!(&out[4..10], &[0x00, 0x00, 0x01, 0xE0, 0x00, 0x00]);
    assert_eq!(out.len(), ((70_014 + 183) / 184) * 188);
}
