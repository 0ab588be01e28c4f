use capscr_plugins::color::{blend, shades};
use capscr_plugins::config::{BorderConfig, BorderStyle, ShadowConfig};
use capscr_plugins::plugin::BordersPlugin;
use capscr_plugins::raster::PixelBuffer;
use capscr_plugins::shadow::falloff;

const CLEAR: [u8; 4] = [0, 0, 0, 0];
const WHITE: [u8; 4] = [255, 255, 255, 255];

fn shadowed(shadow: ShadowConfig) -> BordersPlugin {
    BordersPlugin::with_config(BorderConfig {
        enabled: true,
        style: BorderStyle::Solid,
        size: 0,
        color: [60, 60, 60, 255],
        corner_radius: 0,
        shadow: Some(shadow),
        padding: 0,
        background_color: None,
        only_modes: None,
    })
}

#[test]
fn opaque_source_replaces_the_destination() {
    assert_eq!(blend([1, 2, 3, 4], [200, 100, 50, 255]), [200, 100, 50, 255]);
    assert_eq!(blend(CLEAR, [7, 8, 9, 255]), [7, 8, 9, 255]);
}

#[test]
fn transparent_source_keeps_the_destination() {
    assert_eq!(blend([1, 2, 3, 4], [200, 100, 50, 0]), [1, 2, 3, 4]);
    assert_eq!(blend([9, 9, 9, 255], [0, 0, 0, 0]), [9, 9, 9, 255]);
    assert_eq!(blend([5, 6, 7, 0], [200, 100, 50, 0]), [5, 6, 7, 0]);
}

#[test]
fn half_transparent_source_is_mixed_by_weight() {
    // weight 255 * 128 + 255 * 127 = 65025
    assert_eq!(blend([0, 0, 0, 255], [255, 255, 255, 128]), [128, 128, 128, 255]);
    assert_eq!(blend(WHITE, [0, 0, 0, 128]), [127, 127, 127, 255]);
    // over nothing, the source keeps its colour and its alpha
    assert_eq!(blend(CLEAR, [10, 20, 30, 128]), [10, 20, 30, 128]);
    // weight 255 * 128 + 128 * 127 = 48896: alpha 191, channels d * 16256 / 48896
    assert_eq!(blend([200, 100, 50, 128], [0, 0, 0, 128]), [66, 33, 16, 191]);
    // weight 255 * 1 + 1 * 254 = 509: alpha 1, red (255 * 255 + 0) / 509 = 127
    assert_eq!(blend([0, 255, 9, 1], [255, 0, 9, 1]), [127, 127, 9, 1]);
}

#[test]
fn blend_pixel_touches_one_pixel() {
    let plugin = shadowed(ShadowConfig { offset_x: 0, offset_y: 0, blur_radius: 0, color: CLEAR });
    let mut canvas = PixelBuffer::from_pixel(3, 3, WHITE);
    plugin.blend_pixel(&mut canvas, 1, 2, [0, 0, 0, 128]);
    plugin.blend_pixel(&mut canvas, 3, 0, [0, 0, 0, 128]);
    plugin.blend_pixel(&mut canvas, 0, 3, [0, 0, 0, 128]);
    for y in 0..3 {
        for x in 0..3 {
            let expected = if (x, y) == (1, 2) { [127, 127, 127, 255] } else { WHITE };
            assert_eq!(canvas.get_pixel(x, y), expected);
        }
    }
}

#[test]
fn shades_are_light_then_dark() {
    assert_eq!(shades([100, 0, 255, 8]), ([160, 60, 255, 8], [40, 0, 195, 8]));
}

#[test]
fn falloff_is_quadratic_in_what_is_left_of_the_radius() {
    assert_eq!(falloff(200, 10, 0), 200);
    assert_eq!(falloff(200, 10, 1), 162);
    assert_eq!(falloff(200, 10, 9), 98);
    assert_eq!(falloff(200, 10, 25), 50);
    assert_eq!(falloff(200, 10, 81), 2);
    assert_eq!(falloff(200, 10, 100), 0);
    // 255 * 4 / 9 = 113.3, 255 / 9 = 28.3
    assert_eq!(falloff(255, 3, 1), 113);
    assert_eq!(falloff(255, 3, 4), 28);
    // exact values are kept
    assert_eq!(falloff(90, 3, 1), 40);
    assert_eq!(falloff(9, 3, 4), 1);
    assert_eq!(falloff(0, 3, 4), 0);
}

#[test]
fn falloff_at_a_distance_that_is_no_whole_number() {
    // (1 - sqrt(2) / 10)^2 = 0.73715..., (1 - sqrt(98) / 10)^2 = 0.0001...
    assert_eq!(falloff(200, 10, 2), 147);
    assert_eq!(falloff(200, 10, 98), 0);
    // (1 - sqrt(5) / 4)^2 = 0.19474...
    assert_eq!(falloff(255, 4, 5), 49);
    // (1 - sqrt(3) / 2)^2 = 0.017949...
    assert_eq!(falloff(255, 2, 3), 4);
}

#[test]
fn falloff_is_exact_for_the_largest_radius() {
    let blur = u32::MAX;
    let full = (blur as u128) * (blur as u128);
    assert_eq!(falloff(255, blur, 0), 255);
    assert_eq!(falloff(255, blur, full), 0);
    assert_eq!(falloff(255, blur, full - 1), 0);
    assert_eq!(falloff(255, blur, 1), 254);
    let half = 2_000_000_000u128;
    assert_eq!(falloff(255, 4_000_000_000, half * half), 63);
    assert_eq!(falloff(200, 4_000_000_000, half * half), 50);
    assert_eq!(falloff(200, 4_000_000_000, half * half + 1), 49);
}

#[test]
fn falloff_never_grows_with_distance() {
    for (alpha, blur) in [(255u8, 7u32), (1, 10), (200, 1), (37, 25)] {
        let mut last = alpha;
        for dist_sq in 0..=(blur * blur) {
            let level = falloff(alpha, blur, dist_sq as u128);
            assert!(level <= last, "alpha {} blur {} at {}", alpha, blur, dist_sq);
            last = level;
        }
        assert_eq!(falloff(alpha, blur, 0), alpha);
        assert_eq!(last, 0);
    }
    // truncation makes neighbouring distances share an opacity
    assert_eq!(falloff(1, 10, 1), 0);
    assert_eq!(falloff(1, 10, 4), 0);
}

#[test]
fn sharp_shadow_covers_just_the_rectangle() {
    let shadow = ShadowConfig { offset_x: 3, offset_y: 2, blur_radius: 0, color: [0, 0, 0, 128] };
    let plugin = shadowed(shadow);
    // room (3, 2), content at (2, 1), shadow rectangle from (5, 3)
    assert_eq!(plugin.content_origin(), (2, 1));
    let mut canvas = PixelBuffer::from_pixel(20, 20, WHITE);
    plugin.draw_shadow(&mut canvas, 4, 3, &shadow);
    for y in 0..20u32 {
        for x in 0..20u32 {
            let inside = x >= 5 && x <= 8 && y >= 3 && y <= 5;
            let expected = if inside { [127, 127, 127, 255] } else { WHITE };
            assert_eq!(canvas.get_pixel(x, y), expected, "at ({}, {})", x, y);
        }
    }
}

#[test]
fn opaque_sharp_shadow_on_a_clear_canvas_is_the_rectangle() {
    let shadow = ShadowConfig { offset_x: -1, offset_y: 4, blur_radius: 0, color: [7, 8, 9, 255] };
    let plugin = shadowed(shadow);
    // room (1, 4), content at (1, 2), shadow rectangle from (0, 6)
    assert_eq!(plugin.content_origin(), (1, 2));
    let mut canvas = PixelBuffer::from_pixel(12, 12, CLEAR);
    plugin.draw_shadow(&mut canvas, 5, 3, &shadow);
    for y in 0..12u32 {
        for x in 0..12u32 {
            let inside = x < 5 && y >= 6 && y < 9;
            let expected = if inside { [7, 8, 9, 255] } else { CLEAR };
            assert_eq!(canvas.get_pixel(x, y), expected, "at ({}, {})", x, y);
        }
    }
}

#[test]
fn sharp_shadow_behind_the_content_does_not_show() {
    let shadow = ShadowConfig { offset_x: 0, offset_y: 0, blur_radius: 0, color: [7, 8, 9, 255] };
    let plugin = BordersPlugin::with_config(BorderConfig {
        enabled: true,
        style: BorderStyle::Solid,
        size: 0,
        color: [60, 60, 60, 255],
        corner_radius: 0,
        shadow: Some(shadow),
        padding: 1,
        background_color: None,
        only_modes: None,
    });
    let source = PixelBuffer::from_pixel(1, 1, WHITE);
    let canvas = plugin.apply_border(&source);
    assert_eq!(canvas.dimensions(), (3, 3));
    for y in 0..3 {
        for x in 0..3 {
            let expected = if (x, y) == (1, 1) { WHITE } else { CLEAR };
            assert_eq!(canvas.get_pixel(x, y), expected, "at ({}, {})", x, y);
        }
    }
}

#[test]
fn shadow_of_an_empty_rectangle_paints_nothing_without_blur() {
    let shadow = ShadowConfig { offset_x: 0, offset_y: 0, blur_radius: 0, color: [7, 8, 9, 255] };
    let plugin = shadowed(shadow);
    let mut canvas = PixelBuffer::from_pixel(4, 4, CLEAR);
    plugin.draw_shadow(&mut canvas, 0, 0, &shadow);
    plugin.draw_shadow(&mut canvas, 3, 0, &shadow);
    for y in 0..4 {
        for x in 0..4 {
            assert_eq!(canvas.get_pixel(x, y), CLEAR);
        }
    }
}

#[test]
fn blurred_shadow_fades_with_the_distance() {
    let shadow =
        ShadowConfig { offset_x: 0, offset_y: 0, blur_radius: 10, color: [10, 20, 30, 200] };
    let plugin = shadowed(shadow);
    assert_eq!(plugin.calculate_shadow_extra(), (20, 20));
    assert_eq!(plugin.content_origin(), (10, 10));
    let mut canvas = PixelBuffer::from_pixel(40, 40, CLEAR);
    plugin.draw_shadow(&mut canvas, 5, 5, &shadow);
    // inside the rectangle
    assert_eq!(canvas.get_pixel(12, 12), [10, 20, 30, 200]);
    assert_eq!(canvas.get_pixel(10, 14), [10, 20, 30, 200]);
    // to the left of it
    assert_eq!(canvas.get_pixel(9, 12), [10, 20, 30, 162]);
    assert_eq!(canvas.get_pixel(7, 12), [10, 20, 30, 98]);
    assert_eq!(canvas.get_pixel(5, 12), [10, 20, 30, 50]);
    assert_eq!(canvas.get_pixel(0, 12), CLEAR);
    // to the right of it and below it
    assert_eq!(canvas.get_pixel(15, 12), [10, 20, 30, 162]);
    assert_eq!(canvas.get_pixel(19, 12), [10, 20, 30, 50]);
    assert_eq!(canvas.get_pixel(12, 19), [10, 20, 30, 50]);
    assert_eq!(canvas.get_pixel(24, 12), CLEAR);
    assert_eq!(canvas.get_pixel(25, 12), CLEAR);
    // off its corners
    assert_eq!(canvas.get_pixel(9, 9), [10, 20, 30, 147]);
    assert_eq!(canvas.get_pixel(7, 6), [10, 20, 30, 50]);
    assert_eq!(canvas.get_pixel(3, 3), CLEAR);
    assert_eq!(canvas.get_pixel(2, 2), CLEAR);
}

#[test]
fn nothing_is_painted_beyond_the_blur_radius() {
    let shadow =
        ShadowConfig { offset_x: 4, offset_y: -2, blur_radius: 6, color: [0, 0, 0, 255] };
    let plugin = shadowed(shadow);
    // room (16, 14), content at (8, 7), shadow rectangle from (12, 5)
    assert_eq!(plugin.content_origin(), (8, 7));
    let mut canvas = PixelBuffer::from_pixel(50, 50, WHITE);
    plugin.draw_shadow(&mut canvas, 9, 7, &shadow);
    let outside = |v: i64, len: i64| -> i64 {
        if v < 0 {
            -v
        } else if v >= len {
            v - len + 1
        } else {
            0
        }
    };
    let mut painted = 0;
    for y in 0..50i64 {
        for x in 0..50i64 {
            let dx = outside(x - 12, 9);
            let dy = outside(y - 5, 7);
            let dist_sq = dx * dx + dy * dy;
            let pixel = canvas.get_pixel(x as u32, y as u32);
            if dist_sq > 36 {
                assert_eq!(pixel, WHITE, "at ({}, {})", x, y);
            } else {
                let alpha = falloff(255, 6, dist_sq as u128);
                assert_eq!(pixel, blend(WHITE, [0, 0, 0, alpha]), "at ({}, {})", x, y);
            }
            if pixel != WHITE {
                painted += 1;
            }
        }
    }
    assert!(painted > 9 * 7);
}

#[test]
fn shadow_lies_beneath_border_and_content() {
    let shadow = ShadowConfig { offset_x: 2, offset_y: 2, blur_radius: 0, color: [0, 0, 0, 255] };
    let plugin = BordersPlugin::with_config(BorderConfig {
        enabled: true,
        style: BorderStyle::Solid,
        size: 1,
        color: [60, 60, 60, 255],
        corner_radius: 0,
        shadow: Some(shadow),
        padding: 0,
        background_color: Some(WHITE),
        only_modes: None,
    });
    // room (2, 2): the content starts at (1 + 1, 1 + 1), the canvas is 8 by 8
    let source = PixelBuffer::from_pixel(4, 4, [9, 9, 9, 255]);
    let canvas = plugin.apply_border(&source);
    assert_eq!(canvas.dimensions(), (8, 8));
    // the shadow covers (4, 4)..=(7, 7); the content covers (2, 2)..=(5, 5)
    assert_eq!(canvas.get_pixel(0, 0), WHITE);
    assert_eq!(canvas.get_pixel(1, 1), [60, 60, 60, 255]);
    assert_eq!(canvas.get_pixel(2, 2), [9, 9, 9, 255]);
    assert_eq!(canvas.get_pixel(5, 5), [9, 9, 9, 255]);
    assert_eq!(canvas.get_pixel(6, 6), [60, 60, 60, 255]);
    assert_eq!(canvas.get_pixel(7, 7), [0, 0, 0, 255]);
    assert_eq!(canvas.get_pixel(7, 4), [0, 0, 0, 255]);
    assert_eq!(canvas.get_pixel(7, 3), WHITE);
    assert_eq!(canvas.get_pixel(3, 7), WHITE);
}
