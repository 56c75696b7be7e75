use thunder_mirror::color::{pack_rgb, yuv_to_rgb_bt709_limited};

#[test]
fn studio_white_is_white_within_one() {
    let (r, g, b) = yuv_to_rgb_bt709_limited(235, 128, 128);
    assert_eq!((r, g, b), (254, 254, 254));
    assert!(r >= 254 && g >= 254 && b >= 254);
}

#[test]
fn studio_black_is_black() {
    assert_eq!(yuv_to_rgb_bt709_limited(16, 128, 128), (0, 0, 0));
}

#[test]
fn mid_grey() {
    // (126 - 16) * 1192 >> 10 = 128
    assert_eq!(yuv_to_rgb_bt709_limited(126, 128, 128), (128, 128, 128));
}

#[test]
fn below_black_and_above_white_are_clamped() {
    assert_eq!(yuv_to_rgb_bt709_limited(0, 128, 128), (0, 0, 0));
    assert_eq!(yuv_to_rgb_bt709_limited(255, 128, 128), (255, 255, 255));
}

#[test]
fn chroma_moves_the_components() {
    // luma 126 -> 128; v = 240: 1836 * 112 >> 10 = 200, 545 * 112 >> 10 = 59
    assert_eq!(yuv_to_rgb_bt709_limited(126, 128, 240), (255, 69, 128));
    // u = 240: 2160 * 112 >> 10 = 236, 218 * 112 >> 10 = 23
    assert_eq!(yuv_to_rgb_bt709_limited(126, 240, 128), (128, 105, 255));
    // v = 16: 1836 * -112 >> 10 = -201 (rounded down), 545 * -112 >> 10 = -60
    assert_eq!(yuv_to_rgb_bt709_limited(126, 128, 16), (0, 188, 128));
    // u = 16: 2160 * -112 >> 10 = -237, 218 * -112 >> 10 = -24
    assert_eq!(yuv_to_rgb_bt709_limited(126, 16, 128), (128, 152, 0));
}

#[test]
fn quotients_round_down_below_zero() {
    // luma 20 -> 4; v = 127: 1836 * -1 >> 10 = -2; green: 545 * -1 >> 10 = -1
    assert_eq!(yuv_to_rgb_bt709_limited(20, 128, 127), (2, 5, 4));
}

#[test]
fn studio_red() {
    // BT.709 studio-range red: Y = 63, Cb = 102, Cr = 240
    let (r, g, b) = yuv_to_rgb_bt709_limited(63, 102, 240);
    assert_eq!((r, g, b), (254, 0, 0));
}

#[test]
fn pixels_are_packed_as_0rgb() {
    assert_eq!(pack_rgb(255, 0, 0), 0x00FF0000);
    assert_eq!(pack_rgb(0, 255, 0), 0x0000FF00);
    assert_eq!(pack_rgb(0, 0, 255), 0x000000FF);
    assert_eq!(pack_rgb(255, 255, 255), 0x00FFFFFF);
    assert_eq!(pack_rgb(0x12, 0x34, 0x56), 0x00123456);
    assert_eq!(pack_rgb(0, 0, 0), 0);
}
