use chama_optics::orientation::Orientation;
use chama_optics::scale_config::{ScaleConfig, ScaleMode};

fn cfg(mode: ScaleMode, value: u32, sub_value: u32) -> ScaleConfig {
    ScaleConfig { mode, value, sub_value }
}

#[test]
fn near_4k_default_snaps_to_unit() {
    let c = ScaleConfig::default();
    assert_eq!(c.apply(4000, 3000, false), (4072, 3054));
}

#[test]
fn near_common_divisor_keeps_aspect() {
    let c = cfg(ScaleMode::NearCommonDivisorConsiderWidth, 4072, 0);
    let (w, h) = c.apply(6000, 4000, false);
    assert_eq!((w, h), (4071, 2714));
    assert_eq!(w as u64 * 4000, h as u64 * 6000);
}

#[test]
fn near_common_divisor_by_height() {
    let c = cfg(ScaleMode::NearCommonDivisorConsiderHeight, 3054, 0);
    assert_eq!(c.apply(4000, 3000, false), (4072, 3054));
}

#[test]
fn near_common_divisor_rejects_zero_side() {
    let c = cfg(ScaleMode::NearCommonDivisorConsiderWidth, 4072, 0);
    assert_eq!(c.checked_apply(0, 3000, false), None);
    assert_eq!(c.checked_apply(4000, 3000, false), Some((4072, 3054)));
}

#[test]
fn near_common_divisor_rejects_overflow() {
    let c = cfg(ScaleMode::NearCommonDivisorConsiderWidth, 4_000_000_000, 0);
    assert_eq!(c.checked_apply(1, 3, false), None);
}

#[test]
fn max_width_scales_down() {
    let c = cfg(ScaleMode::MaxWidth, 1000, 0);
    assert_eq!(c.apply(4000, 3000, false), (1000, 750));
    assert_eq!(c.apply(800, 600, false), (800, 600));
}

#[test]
fn max_height_scales_down() {
    let c = cfg(ScaleMode::MaxHeight, 1000, 0);
    assert_eq!(c.apply(4000, 3000, false), (1333, 1000));
    assert_eq!(c.apply(400, 300, false), (400, 300));
}

#[test]
fn divide_divides_both_sides() {
    assert_eq!(cfg(ScaleMode::Divide, 3, 0).apply(4000, 3000, false), (1333, 1000));
    assert_eq!(cfg(ScaleMode::Divide, 0, 0).apply(4000, 3000, false), (4000, 3000));
}

#[test]
fn resize_and_crop_covers_target() {
    let c = cfg(ScaleMode::ResizeAndCrop, 330, 220);
    let (w, h) = c.apply(4000, 3000, false);
    assert_eq!((w, h), (330, 248));
    let (w, h) = c.apply(3000, 1000, false);
    assert_eq!((w, h), (660, 220));
    for (sw, sh) in [(1, 1), (7, 3000), (5000, 2), (330, 220), (331, 219)] {
        let (w, h) = c.apply(sw, sh, false);
        assert!(w >= 330 && h >= 220, "{sw}x{sh} gave {w}x{h}");
    }
}

#[test]
fn resize_and_crop_rounds_half_up() {
    let c = cfg(ScaleMode::ResizeAndCrop, 3, 2);
    assert_eq!(c.apply(4, 5, false), (3, 4));
}

#[test]
fn no_scale_is_identity() {
    let c = cfg(ScaleMode::NoScale, 123, 456);
    assert_eq!(c.apply(4000, 3000, false), (4000, 3000));
    assert_eq!(c.apply(4000, 3000, true), (4000, 3000));
    let (w, h) = c.apply(17, 9, false);
    assert_eq!(c.apply(w, h, false), (17, 9));
}

#[test]
fn rotation_swaps_sides_for_every_mode() {
    let modes = [
        ScaleMode::NoScale,
        ScaleMode::MaxWidth,
        ScaleMode::MaxHeight,
        ScaleMode::Divide,
        ScaleMode::NearCommonDivisorConsiderWidth,
        ScaleMode::NearCommonDivisorConsiderHeight,
        ScaleMode::ResizeAndCrop,
    ];
    for mode in modes {
        let c = cfg(mode, 1000, 700);
        for (w, h) in [(4000, 3000), (3000, 4000), (640, 480), (1000, 1000), (1234, 567)] {
            let (a, b) = c.apply(w, h, false);
            assert_eq!(c.apply(h, w, true), (b, a));
        }
    }
}

#[test]
fn rotated_max_width_plans_like_max_height() {
    let o = Orientation::from_tiff(6);
    assert_eq!(o, Orientation::Rotate90);
    assert!(o.is_vertical_rotated());
    let max_w = cfg(ScaleMode::MaxWidth, 1000, 0);
    let max_h = cfg(ScaleMode::MaxHeight, 1000, 0);
    let planned = max_w.apply(4000, 3000, o.is_vertical_rotated());
    assert_eq!(planned, max_h.apply(4000, 3000, false));
    assert_eq!(planned, (1333, 1000));
}
