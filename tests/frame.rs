use m0n1t0r_proxy::frame::{copy_plane, mux_encoded, pack_i420};
use m0n1t0r_proxy::ts_mux::TsMuxer;

#[test]
fn copy_plane_drops_row_padding() {
    let src = [1u8, 2, 3, 99, 4, 5, 6, 99];
    let mut dst = vec![7u8];
    copy_plane(&mut dst, &src, 4, 3, 2);
    assert_eq!(dst, vec![7, 1, 2, 3, 4, 5, 6]);
}

#[test]
fn copy_plane_of_no_rows_is_empty() {
    let mut dst = Vec::new();
    copy_plane(&mut dst, &[], 8, 4, 0);
    assert!(dst.is_empty());
}

#[test]
fn pack_even_frame() {
    // 4 x 2 luma with stride 5, 2 x 1 chroma with stride 3.
    let y = [1u8, 2, 3, 4, 0, 5, 6, 7, 8, 0];
    let u = [10u8, 11, 0];
    let v = [20u8, 21, 0];
    let out = pack_i420(&y, &u, &v, (5, 3, 3), 4, 2);
    assert_eq!(out, vec![1, 2, 3, 4, 5, 6, 7, 8, 10, 11, 20, 21]);
}

#[test]
fn pack_odd_frame_pads_chroma_regions() {
    // 3 x 3: 9 luma bytes, chroma regions of 2 bytes holding 1 x 1 samples.
    let y = [1u8, 2, 3, 4, 5, 6, 7, 8, 9];
    let out = pack_i420(&y, &[40], &[50], (3, 1, 1), 3, 3);
    assert_eq!(out, vec![1, 2, 3, 4, 5, 6, 7, 8, 9, 40, 0, 50, 0]);
    assert_eq!(out.len(), 9 * 3 / 2);
}

#[test]
fn header_comes_with_every_thirtieth_frame() {
    let mut m = TsMuxer::new();
    let first = mux_encoded(&mut m, 0, &[1, 2, 3]);
    assert_eq!(first.len(), 3 * 188);
    assert_eq!(&first[..4], &[0x47, 0x40, 0x00, 0x10]);
    assert_eq!(&first[376..380], &[0x47, 0x41, 0x00, 0x30]);
    let second = mux_encoded(&mut m, 1, &[1, 2, 3]);
    assert_eq!(second.len(), 188);
    assert_eq!(&second[..4], &[0x47, 0x41, 0x00, 0x31]);
    let thirtieth = mux_encoded(&mut m, 30, &[1]);
    assert_eq!(thirtieth.len(), 3 * 188);
    assert_eq!(&thirtieth[..4], &[0x47, 0x40, 0x00, 0x11]);
}

#[test]
fn frame_time_is_in_ninety_kilohertz_ticks() {
    let mut m = TsMuxer::new();
    // Frame 25 is one second in: 90000 ticks.
    let out = mux_encoded(&mut m, 25, &[]);
    let pes = &out[188 - 14..];
    let pts: u64 = 90_000;
    assert_eq!(pes[9], (0x21 | ((pts >> 29) & 0x0E)) as u8);
    assert_eq!(pes[10], ((pts >> 22) & 0xFF) as u8);
    assert_eq!(pes[11], (((pts >> 14) & 0xFE) | 1) as u8);
    assert_eq!(pes[12], ((pts >> 7) & 0xFF) as u8);
    assert_eq!(pes[13], (((pts << 1) & 0xFE) | 1) as u8);
}
