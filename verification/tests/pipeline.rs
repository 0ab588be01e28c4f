use capscr_plugins::compose::CaptureResponse;
use capscr_plugins::config::{BorderConfig, BorderStyle, CaptureMode, ShadowConfig};
use capscr_plugins::plugin::BordersPlugin;
use capscr_plugins::raster::PixelBuffer;

const WHITE: [u8; 4] = [255, 255, 255, 255];
const GREY: [u8; 4] = [60, 60, 60, 255];
const CLEAR: [u8; 4] = [0, 0, 0, 0];

fn plain(size: u32, padding: u32) -> BorderConfig {
    BorderConfig {
        enabled: true,
        style: BorderStyle::Solid,
        size,
        color: GREY,
        corner_radius: 0,
        shadow: None,
        padding,
        background_color: None,
        only_modes: None,
    }
}

fn gradient(width: u32, height: u32) -> PixelBuffer {
    let mut image = PixelBuffer::from_pixel(width, height, CLEAR);
    for y in 0..height {
        for x in 0..width {
            image.put_pixel(x, y, [x as u8, y as u8, (x + y) as u8, 200]);
        }
    }
    image
}

#[test]
fn solid_border_on_white_square() {
    let source = PixelBuffer::from_pixel(100, 100, WHITE);
    let plugin = BordersPlugin::with_config(plain(3, 0));
    let canvas = plugin.apply_border(&source);
    assert_eq!(canvas.dimensions(), (106, 106));
    assert_eq!(canvas.get_pixel(0, 0), GREY);
    assert_eq!(canvas.get_pixel(3, 3), WHITE);
    assert_eq!(canvas.get_pixel(2, 2), GREY);
    assert_eq!(canvas.get_pixel(102, 102), WHITE);
    assert_eq!(canvas.get_pixel(103, 103), GREY);
    assert_eq!(canvas.get_pixel(105, 105), GREY);
    assert_eq!(canvas.get_pixel(50, 1), GREY);
    assert_eq!(canvas.get_pixel(104, 50), GREY);
}

#[test]
fn default_settings_give_the_same_border() {
    let source = PixelBuffer::from_pixel(100, 100, WHITE);
    let plugin = BordersPlugin::new(None);
    let canvas = plugin.apply_border(&source);
    assert_eq!(canvas.dimensions(), (106, 106));
    assert_eq!(canvas.get_pixel(0, 0), GREY);
    assert_eq!(canvas.get_pixel(3, 3), WHITE);
}

#[test]
fn rounded_corners_clear_the_corner_and_keep_the_centre() {
    let source = PixelBuffer::from_pixel(100, 100, WHITE);
    let mut config = plain(3, 0);
    config.corner_radius = 10;
    let canvas = BordersPlugin::with_config(config).apply_border(&source);
    assert_eq!(canvas.dimensions(), (106, 106));
    assert_eq!(canvas.get_pixel(0, 0)[3], 0);
    assert_eq!(canvas.get_pixel(0, 0), CLEAR);
    assert_eq!(canvas.get_pixel(53, 53)[3], 255);
    assert_eq!(canvas.get_pixel(53, 53), WHITE);
    assert_eq!(canvas.get_pixel(105, 0), CLEAR);
    assert_eq!(canvas.get_pixel(0, 105), CLEAR);
    assert_eq!(canvas.get_pixel(105, 105), CLEAR);
}

#[test]
fn rounded_corner_follows_the_quarter_circle() {
    let source = PixelBuffer::from_pixel(100, 100, WHITE);
    let mut config = plain(3, 0);
    config.corner_radius = 10;
    let canvas = BordersPlugin::with_config(config).apply_border(&source);
    // Offsets from the rounding origin at (9, 9): cleared where the squares
    // add up to more than 100.
    for y in 0..10u32 {
        for x in 0..10u32 {
            let dx = 9 - x;
            let dy = 9 - y;
            let cleared = dx * dx + dy * dy > 100;
            let pixel = canvas.get_pixel(x, y);
            if cleared {
                assert_eq!(pixel, CLEAR, "at ({}, {})", x, y);
            } else {
                assert_ne!(pixel[3], 0, "at ({}, {})", x, y);
            }
        }
    }
    // 81 + 25 > 100, 81 + 16 <= 100
    assert_eq!(canvas.get_pixel(4, 0), CLEAR);
    assert_eq!(canvas.get_pixel(5, 0), GREY);
    // outside the corner square nothing is cleared
    assert_eq!(canvas.get_pixel(10, 0), GREY);
    assert_eq!(canvas.get_pixel(0, 10), GREY);
}

#[test]
fn rounded_corners_are_mirror_images() {
    let source = gradient(40, 30);
    let mut config = plain(4, 2);
    config.corner_radius = 12;
    config.background_color = Some([9, 9, 9, 9]);
    let canvas = BordersPlugin::with_config(config).apply_border(&source);
    let (w, h) = canvas.dimensions();
    assert_eq!((w, h), (52, 42));
    // the bordered rectangle spans columns 2..=49 and rows 2..=39
    let mut cleared = 0;
    for y in 0..h {
        for x in 0..w {
            let here = canvas.get_pixel(x, y) == CLEAR;
            if x >= 2 && x <= 49 && y >= 2 && y <= 39 {
                let across = canvas.get_pixel(2 + 49 - x, y) == CLEAR;
                let below = canvas.get_pixel(x, 2 + 39 - y) == CLEAR;
                assert_eq!(here, across, "at ({}, {})", x, y);
                assert_eq!(here, below, "at ({}, {})", x, y);
            }
            if here {
                cleared += 1;
            }
        }
    }
    assert!(cleared > 0);
    assert_eq!(cleared % 4, 0);
}

#[test]
fn oversized_radius_is_cut_down() {
    let source = PixelBuffer::from_pixel(10, 10, WHITE);
    let mut config = plain(2, 0);
    config.corner_radius = 1000;
    let canvas = BordersPlugin::with_config(config).apply_border(&source);
    assert_eq!(canvas.dimensions(), (14, 14));
    // the radius in effect is 2 + 10 / 2 = 7: the origin of the first corner
    // is (6, 6), and 36 + 36 > 49
    assert_eq!(canvas.get_pixel(0, 0), CLEAR);
    // 36 + 9 <= 49
    assert_eq!(canvas.get_pixel(3, 0), GREY);
    assert_eq!(canvas.get_pixel(7, 7), WHITE);
    assert_eq!(canvas.get_pixel(6, 7), WHITE);
}

#[test]
fn canvas_grows_by_border_and_padding() {
    for (border, padding) in [(0u32, 0u32), (1, 0), (0, 4), (3, 5), (10, 1)] {
        let source = PixelBuffer::from_pixel(17, 9, WHITE);
        let canvas = BordersPlugin::with_config(plain(border, padding)).apply_border(&source);
        assert_eq!(canvas.width(), 17 + 2 * (border + padding));
        assert_eq!(canvas.height(), 9 + 2 * (border + padding));
    }
}

#[test]
fn canvas_layout_places_the_content() {
    let plugin = BordersPlugin::with_config(plain(3, 5));
    let layout = plugin.canvas_layout(20, 10).unwrap();
    assert_eq!((layout.width, layout.height), (36, 26));
    assert_eq!((layout.content_x, layout.content_y), (8, 8));
    assert_eq!(plugin.calculate_shadow_extra(), (0, 0));
}

#[test]
fn shadow_room_is_split_unevenly_when_odd() {
    let mut config = plain(1, 1);
    config.shadow =
        Some(ShadowConfig { offset_x: 5, offset_y: -4, blur_radius: 0, color: [0, 0, 0, 255] });
    let plugin = BordersPlugin::with_config(config);
    assert_eq!(plugin.calculate_shadow_extra(), (5, 4));
    assert_eq!(plugin.content_origin(), (2 + 3, 2 + 2));
    let layout = plugin.canvas_layout(10, 10).unwrap();
    assert_eq!((layout.width, layout.height), (10 + 4 + 5, 10 + 4 + 4));
    assert_eq!((layout.content_x, layout.content_y), (5, 4));
}

#[test]
fn shadow_room_counts_the_blur_twice() {
    let mut config = plain(0, 0);
    config.shadow =
        Some(ShadowConfig { offset_x: -3, offset_y: 2, blur_radius: 4, color: [0, 0, 0, 255] });
    let plugin = BordersPlugin::with_config(config);
    assert_eq!(plugin.calculate_shadow_extra(), (11, 10));
    assert_eq!(plugin.content_origin(), (6, 5));
}

#[test]
fn content_is_copied_pixel_for_pixel() {
    let source = gradient(23, 11);
    let mut config = plain(4, 3);
    config.style = BorderStyle::Groove;
    config.background_color = Some([1, 2, 3, 4]);
    config.shadow =
        Some(ShadowConfig { offset_x: 6, offset_y: 3, blur_radius: 5, color: [0, 0, 0, 180] });
    let plugin = BordersPlugin::with_config(config);
    let layout = plugin.canvas_layout(23, 11).unwrap();
    let canvas = plugin.apply_border(&source);
    assert_eq!(canvas.dimensions(), (layout.width, layout.height));
    for y in 0..11 {
        for x in 0..23 {
            assert_eq!(
                canvas.get_pixel(layout.content_x + x, layout.content_y + y),
                source.get_pixel(x, y)
            );
        }
    }
}

#[test]
fn padding_shows_the_background() {
    let source = PixelBuffer::from_pixel(4, 4, WHITE);
    let mut config = plain(1, 2);
    config.background_color = Some([10, 20, 30, 40]);
    let canvas = BordersPlugin::with_config(config).apply_border(&source);
    assert_eq!(canvas.dimensions(), (10, 10));
    assert_eq!(canvas.get_pixel(0, 0), [10, 20, 30, 40]);
    assert_eq!(canvas.get_pixel(1, 1), [10, 20, 30, 40]);
    assert_eq!(canvas.get_pixel(2, 2), GREY);
    assert_eq!(canvas.get_pixel(3, 3), WHITE);
    assert_eq!(canvas.get_pixel(6, 6), WHITE);
    assert_eq!(canvas.get_pixel(7, 7), GREY);
    assert_eq!(canvas.get_pixel(8, 8), [10, 20, 30, 40]);
}

#[test]
fn missing_background_is_transparent() {
    let source = PixelBuffer::from_pixel(2, 2, WHITE);
    let canvas = BordersPlugin::with_config(plain(0, 1)).apply_border(&source);
    assert_eq!(canvas.dimensions(), (4, 4));
    assert_eq!(canvas.get_pixel(0, 0), CLEAR);
    assert_eq!(canvas.get_pixel(1, 1), WHITE);
}

#[test]
fn zero_border_draws_nothing_in_any_style() {
    for style in [
        BorderStyle::Solid,
        BorderStyle::Double,
        BorderStyle::Dashed,
        BorderStyle::Dotted,
        BorderStyle::Groove,
        BorderStyle::Ridge,
        BorderStyle::Inset,
        BorderStyle::Outset,
    ] {
        let mut config = plain(0, 2);
        config.style = style;
        let source = PixelBuffer::from_pixel(3, 3, WHITE);
        let canvas = BordersPlugin::with_config(config).apply_border(&source);
        assert_eq!(canvas.dimensions(), (7, 7));
        for y in 0..7 {
            for x in 0..7 {
                let inside = x >= 2 && x < 5 && y >= 2 && y < 5;
                assert_eq!(canvas.get_pixel(x, y), if inside { WHITE } else { CLEAR });
            }
        }
    }
}

#[test]
fn empty_source_gives_just_the_frame() {
    let source = PixelBuffer::from_pixel(0, 0, WHITE);
    let canvas = BordersPlugin::with_config(plain(2, 0)).apply_border(&source);
    assert_eq!(canvas.dimensions(), (4, 4));
    for y in 0..4 {
        for x in 0..4 {
            assert_eq!(canvas.get_pixel(x, y), GREY);
        }
    }
}

#[test]
fn canvas_too_large_is_refused() {
    let source = PixelBuffer::from_pixel(1, 1, WHITE);
    let plugin = BordersPlugin::with_config(plain(u32::MAX, 0));
    assert!(plugin.canvas_layout(1, 1).is_none());
    assert!(plugin.try_apply_border(&source).is_none());
    let plugin = BordersPlugin::with_config(plain(0x4000_0000, 0x3fff_ffff));
    assert!(plugin.canvas_layout(1, 1).is_none());
    assert!(plugin.canvas_layout(0, 0).is_none());
    let plugin = BordersPlugin::with_config(plain(2, 1));
    assert!(plugin.try_apply_border(&source).is_some());
}

#[test]
fn allocation_limit_is_four_bytes_per_pixel() {
    assert!(PixelBuffer::can_allocate(0, u32::MAX));
    assert!(PixelBuffer::can_allocate(1000, 1000));
    let limit = (isize::MAX as u128) / 4;
    let side = u32::MAX as u128;
    assert_eq!(PixelBuffer::can_allocate(u32::MAX, u32::MAX), side * side <= limit);
    assert!(PixelBuffer::try_from_pixel(3, 2, WHITE).is_some());
}

#[test]
fn disabled_plugin_leaves_the_capture_alone() {
    let source = PixelBuffer::from_pixel(5, 5, WHITE);
    let mut config = plain(3, 0);
    config.enabled = false;
    let plugin = BordersPlugin::with_config(config);
    for mode in [CaptureMode::FullScreen, CaptureMode::Window, CaptureMode::Region, CaptureMode::Gif]
    {
        assert!(!plugin.should_process(&mode));
        assert!(matches!(plugin.on_post_capture(&source, &mode), CaptureResponse::Continue));
    }
}

#[test]
fn enabled_plugin_answers_with_the_bordered_image() {
    let source = PixelBuffer::from_pixel(5, 5, WHITE);
    let plugin = BordersPlugin::with_config(plain(3, 0));
    match plugin.on_post_capture(&source, &CaptureMode::Region) {
        CaptureResponse::ModifiedImage(canvas) => {
            assert_eq!(canvas.dimensions(), (11, 11));
            assert_eq!(canvas.get_pixel(0, 0), GREY);
            assert_eq!(canvas.get_pixel(5, 5), WHITE);
        }
        CaptureResponse::Continue => panic!("the capture should have been bordered"),
    }
}

#[test]
fn excluded_mode_leaves_the_capture_alone() {
    let source = PixelBuffer::from_pixel(5, 5, WHITE);
    let mut config = plain(3, 0);
    config.only_modes = Some(vec!["Window".to_string(), "GIF".to_string()]);
    let plugin = BordersPlugin::with_config(config);
    assert!(matches!(
        plugin.on_post_capture(&source, &CaptureMode::Region),
        CaptureResponse::Continue
    ));
    assert!(matches!(
        plugin.on_post_capture(&source, &CaptureMode::Gif),
        CaptureResponse::ModifiedImage(_)
    ));
}

#[test]
fn capture_is_answered_whatever_its_size() {
    let source = PixelBuffer::from_pixel(5, 5, WHITE);
    // a canvas that cannot be made is nobody's concern where none is due
    let mut config = plain(u32::MAX, 0);
    config.only_modes = Some(vec!["window".to_string()]);
    let plugin = BordersPlugin::with_config(config);
    assert!(plugin.canvas_layout(5, 5).is_none());
    assert!(matches!(
        plugin.try_on_post_capture(&source, &CaptureMode::Region),
        Some(CaptureResponse::Continue)
    ));
    assert!(matches!(
        plugin.on_post_capture(&source, &CaptureMode::Region),
        CaptureResponse::Continue
    ));
    assert!(plugin.try_on_post_capture(&source, &CaptureMode::Window).is_none());
    let mut config = plain(u32::MAX, 0);
    config.enabled = false;
    let plugin = BordersPlugin::with_config(config);
    assert!(matches!(
        plugin.try_on_post_capture(&source, &CaptureMode::Window),
        Some(CaptureResponse::Continue)
    ));
    let plugin = BordersPlugin::with_config(plain(2, 0));
    match plugin.try_on_post_capture(&source, &CaptureMode::Gif) {
        Some(CaptureResponse::ModifiedImage(canvas)) => {
            assert_eq!(canvas.dimensions(), (9, 9));
            assert_eq!(canvas.get_pixel(1, 1), GREY);
            assert_eq!(canvas.get_pixel(2, 2), WHITE);
        }
        _ => panic!("the capture should have been bordered"),
    }
}

#[test]
fn corner_squares_before_the_canvas_are_cut_off() {
    let mut config = plain(3, 0);
    config.corner_radius = 4;
    let plugin = BordersPlugin::with_config(config);
    let mut canvas = PixelBuffer::from_pixel(16, 16, WHITE);
    plugin.apply_corner_mask(&mut canvas, 1, 1, 10, 10);
    // the bordered rectangle spans -2..=13 in both directions; of the four
    // corner pixels that the mask clears only (13, 13) lies on the canvas
    for y in 0..16 {
        for x in 0..16 {
            let expected = if (x, y) == (13, 13) { CLEAR } else { WHITE };
            assert_eq!(canvas.get_pixel(x, y), expected, "at ({}, {})", x, y);
        }
    }
}
