use vblank_capture::signal::encode_marker;

#[test]
fn markers_encode_big_endian_fixed_width() {
    assert_eq!(encode_marker(0), vec![0u8, 0, 0, 0]);
    assert_eq!(encode_marker(1), vec![0u8, 0, 0, 1]);
    assert_eq!(encode_marker(2), vec![0u8, 0, 0, 2]);
    assert_eq!(encode_marker(256), vec![0u8, 0, 1, 0]);
    assert_eq!(encode_marker(0x0102_0304), vec![1u8, 2, 3, 4]);
    assert_eq!(encode_marker(u32::MAX), vec![255u8, 255, 255, 255]);
}

#[test]
fn distinct_markers_encode_distinctly() {
    let a = encode_marker(9);
    let b = encode_marker(10);
    assert_ne!(a, b);
}
