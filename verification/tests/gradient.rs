use waycore::gradient_pixel;

#[test]
fn corner_pixels_have_exact_values() {
    // top-left: full red
    assert_eq!(gradient_pixel(0, 0, 320, 240), 0xFFFF0000);
    // centre: mid grey
    assert_eq!(gradient_pixel(160, 120, 320, 240), 0xFF7F7F7F);
    // bottom-right: almost black with a trace of green
    assert_eq!(gradient_pixel(319, 239, 320, 240), 0xFF000100);
}

#[test]
fn gradient_matches_the_componentwise_formula() {
    let (w, h) = (320u32, 240u32);
    for y in 0..h {
        for x in 0..w {
            let r = ((w - x) * 0xFF / w).min((h - y) * 0xFF / h);
            let g = (x * 0xFF / w).min((h - y) * 0xFF / h);
            let b = ((w - x) * 0xFF / w).min(y * 0xFF / h);
            let expected = (0xFFu32 << 24) + (r << 16) + (g << 8) + b;
            assert_eq!(gradient_pixel(x, y, w, h), expected, "at ({x}, {y})");
        }
    }
}

#[test]
fn alpha_is_always_opaque() {
    for (x, y, w, h) in [(0, 0, 1, 1), (5, 7, 11, 13), (999, 0, 1000, 2)] {
        assert_eq!(gradient_pixel(x, y, w, h) >> 24, 0xFF);
    }
}
