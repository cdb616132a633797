use robot36_encoder::rgb2yuv::{u_rgb, v_rgb, y_rgb};

fn exact(offset: i128, cr: i128, cg: i128, cb: i128, r: u8, g: u8, b: u8) -> u8 {
    let billionths = offset * 1_000_000_000
        + 3906 * (cr * r as i128 + cg * g as i128 + cb * b as i128);
    let clamped = billionths.max(0).min(255_000_000_000);
    (clamped / 1_000_000_000) as u8
}

#[test]
fn black_has_luma_16_and_neutral_chroma() {
    assert_eq!(y_rgb(0, 0, 0), 16);
    assert_eq!(u_rgb(0, 0, 0), 128);
    assert_eq!(v_rgb(0, 0, 0), 128);
}

#[test]
fn white_has_luma_234_and_neutral_chroma() {
    // 16 + 0.003906 * 219.859 * 255 = 234.986..., cut off to 234
    assert_eq!(y_rgb(255, 255, 255), 234);
    // the chroma coefficients of each row add up to zero
    assert_eq!(u_rgb(255, 255, 255), 128);
    assert_eq!(v_rgb(255, 255, 255), 128);
}

#[test]
fn grey_has_neutral_chroma() {
    for level in 0..=255u8 {
        assert_eq!(u_rgb(level, level, level), 128);
        assert_eq!(v_rgb(level, level, level), 128);
    }
}

#[test]
fn primary_colours() {
    // red: 16 + 65.476..., 128 - 37.794..., 128 + 111.992...
    assert_eq!(y_rgb(255, 0, 0), 81);
    assert_eq!(u_rgb(255, 0, 0), 90);
    assert_eq!(v_rgb(255, 0, 0), 239);
    // green: 16 + 128.544..., 128 - 74.198..., 128 - 93.780...
    assert_eq!(y_rgb(0, 255, 0), 144);
    assert_eq!(u_rgb(0, 255, 0), 53);
    assert_eq!(v_rgb(0, 255, 0), 34);
    // blue: 16 + 24.964..., 128 + 111.992..., 128 - 18.212...
    assert_eq!(y_rgb(0, 0, 255), 40);
    assert_eq!(u_rgb(0, 0, 255), 239);
    assert_eq!(v_rgb(0, 0, 255), 109);
}

#[test]
fn extreme_chroma_stays_above_16() {
    // yellow has the least blue-difference, cyan the least red-difference
    assert_eq!(u_rgb(255, 255, 0), 16);
    assert_eq!(v_rgb(0, 255, 255), 16);
}

#[test]
fn fraction_is_cut_off_not_rounded() {
    // 16 + 0.003906 * 65.738 * 3 = 16.770...
    assert_eq!(y_rgb(3, 0, 0), 16);
    // 16 + 0.003906 * 65.738 * 4 = 17.027...
    assert_eq!(y_rgb(4, 0, 0), 17);
    // 128 - 0.003906 * 37.945 = 127.851...
    assert_eq!(u_rgb(1, 0, 0), 127);
}

#[test]
fn transform_matches_exact_formula_on_a_grid() {
    for r in (0..=255u8).step_by(5) {
        for g in (0..=255u8).step_by(5) {
            for b in (0..=255u8).step_by(5) {
                assert_eq!(y_rgb(r, g, b), exact(16, 65_738, 129_057, 25_064, r, g, b));
                assert_eq!(v_rgb(r, g, b), exact(128, 112_439, -94_154, -18_285, r, g, b));
                assert_eq!(u_rgb(r, g, b), exact(128, -37_945, -74_494, 112_439, r, g, b));
            }
        }
    }
}

#[test]
fn transform_stays_in_video_range() {
    for r in (0..=255u8).step_by(3) {
        for g in (0..=255u8).step_by(3) {
            for b in (0..=255u8).step_by(3) {
                let y = y_rgb(r, g, b);
                let u = u_rgb(r, g, b);
                let v = v_rgb(r, g, b);
                assert!((16..=235).contains(&y));
                assert!((16..=240).contains(&u));
                assert!((16..=240).contains(&v));
            }
        }
    }
}

#[test]
fn transform_is_deterministic() {
    for r in (0..=255u8).step_by(17) {
        for g in (0..=255u8).step_by(17) {
            for b in (0..=255u8).step_by(17) {
                assert_eq!(y_rgb(r, g, b), y_rgb(r, g, b));
                assert_eq!(u_rgb(r, g, b), u_rgb(r, g, b));
                assert_eq!(v_rgb(r, g, b), v_rgb(r, g, b));
            }
        }
    }
}

#[test]
fn transform_is_close_to_floating_point() {
    for r in (0..=255u8).step_by(15) {
        for g in (0..=255u8).step_by(15) {
            for b in (0..=255u8).step_by(15) {
                let (rf, gf, bf) = (r as f64, g as f64, b as f64);
                let y = 16.0 + 0.003906 * (65.738 * rf + 129.057 * gf + 25.064 * bf);
                let v = 128.0 + 0.003906 * (112.439 * rf - 94.154 * gf - 18.285 * bf);
                let u = 128.0 + 0.003906 * (-37.945 * rf - 74.494 * gf + 112.439 * bf);
                assert!((y - y_rgb(r, g, b) as f64).abs() < 1.000001);
                assert!((v - v_rgb(r, g, b) as f64).abs() < 1.000001);
                assert!((u - u_rgb(r, g, b) as f64).abs() < 1.000001);
            }
        }
    }
}
