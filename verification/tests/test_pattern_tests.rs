use thunder_mirror::test_pattern::generate_color_bars;

#[test]
fn test_color_bars_generation() {
    let width: u16 = 1920;
    let height: u16 = 1080;
    let pattern = generate_color_bars(width, height);

    let width = width as usize;
    let height = height as usize;

    // Verify size: width * height * 4 bytes per pixel
    assert_eq!(pattern.len(), width * height * 4);

    // Verify first pixel is white (first bar)
    assert_eq!(pattern[0], 255); // R
    assert_eq!(pattern[1], 255); // G
    assert_eq!(pattern[2], 255); // B
    assert_eq!(pattern[3], 255); // A

    // Verify a pixel in the middle of the first bar is white
    let mid_bar_pixel = (width / 16) * 4; // Middle of first bar
    assert_eq!(pattern[mid_bar_pixel], 255);
    assert_eq!(pattern[mid_bar_pixel + 1], 255);
    assert_eq!(pattern[mid_bar_pixel + 2], 255);
    assert_eq!(pattern[mid_bar_pixel + 3], 255);

    // Verify a pixel in the red bar (6th bar, index 5)
    let red_bar_start = (width / 8 * 5) * 4;
    assert_eq!(pattern[red_bar_start], 255); // R
    assert_eq!(pattern[red_bar_start + 1], 0); // G
    assert_eq!(pattern[red_bar_start + 2], 0); // B
    assert_eq!(pattern[red_bar_start + 3], 255); // A
}

#[test]
fn test_color_bars_different_sizes() {
    // Test small size
    let small = generate_color_bars(640, 480);
    assert_eq!(small.len(), 640 * 480 * 4);

    // Test large size
    let large = generate_color_bars(3840, 2160);
    assert_eq!(large.len(), 3840 * 2160 * 4);
}

#[test]
fn eight_pixels_are_the_eight_bars() {
    let pattern = generate_color_bars(8, 1);
    let expected: [u8; 32] = [
        255, 255, 255, 255, 255, 255, 0, 255, 0, 255, 255, 255, 0, 255, 0, 255, 255, 0, 255, 255,
        255, 0, 0, 255, 0, 0, 255, 255, 0, 0, 0, 255,
    ];
    assert_eq!(&pattern[..], &expected[..]);
}

#[test]
fn every_row_is_the_same() {
    let pattern = generate_color_bars(16, 3);
    assert_eq!(pattern.len(), 16 * 3 * 4);
    assert_eq!(&pattern[..64], &pattern[64..128]);
    assert_eq!(&pattern[..64], &pattern[128..]);
    // bars are two pixels wide
    assert_eq!(&pattern[0..4], &pattern[4..8]);
    assert_eq!(&pattern[8..12], &[255, 255, 0, 255]);
}

#[test]
fn columns_left_over_belong_to_the_last_bar() {
    // 15 pixels: bars of one pixel, and seven more black pixels
    let pattern = generate_color_bars(15, 1);
    assert_eq!(&pattern[24..28], &[0, 0, 255, 255]);
    for x in 7..15 {
        assert_eq!(&pattern[x * 4..x * 4 + 4], &[0, 0, 0, 255]);
    }
}

#[test]
fn patterns_without_pixels_are_empty() {
    assert_eq!(generate_color_bars(0, 0).len(), 0);
    assert_eq!(generate_color_bars(0, 100).len(), 0);
    assert_eq!(generate_color_bars(100, 0).len(), 0);
    assert_eq!(generate_color_bars(3, 0).len(), 0);
}
