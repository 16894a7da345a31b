use rustui::clear;
use rustui::draw_icon_chart;
use rustui::draw_icon_plus;
use rustui::draw_rect;
use rustui::get_system_font;
use rustui::Color;
use rustui::Platform;
use rustui::Theme;

fn px(frame: &[u8], sw: usize, x: usize, y: usize) -> [u8; 4] {
    let i = 4 * (y * sw + x);
    [frame[i], frame[i + 1], frame[i + 2], frame[i + 3]]
}

#[test]
fn clear_fills_every_pixel() {
    let mut f = vec![0u8; 4 * 3 * 2];
    clear(&mut f, Color { r: 10, g: 20, b: 30, a: 40 });
    for y in 0..2 {
        for x in 0..3 {
            assert_eq!(px(&f, 3, x, y), [10, 20, 30, 40]);
        }
    }
}

#[test]
fn clear_leaves_trailing_bytes_alone() {
    // A buffer that is not a whole number of pixels: the odd tail
    // survives untouched.
    let mut f = vec![9u8; 10];
    clear(&mut f, Color { r: 1, g: 2, b: 3, a: 4 });
    assert_eq!(f, vec![1, 2, 3, 4, 1, 2, 3, 4, 9, 9]);
}

#[test]
fn opaque_rect_overwrites_and_clips() {
    let mut f = vec![0u8; 4 * 4 * 4];
    draw_rect(&mut f, 1, 1, 2, 2, Color { r: 200, g: 100, b: 50, a: 255 }, 4, 4);
    assert_eq!(px(&f, 4, 1, 1), [200, 100, 50, 255]);
    assert_eq!(px(&f, 4, 2, 2), [200, 100, 50, 255]);
    assert_eq!(px(&f, 4, 0, 0), [0, 0, 0, 0]);
    assert_eq!(px(&f, 4, 3, 3), [0, 0, 0, 0]);

    // A rectangle hanging off the frame touches only what is visible.
    let mut f = vec![0u8; 4 * 4 * 4];
    draw_rect(&mut f, -1, -1, 2, 2, Color { r: 7, g: 7, b: 7, a: 255 }, 4, 4);
    assert_eq!(px(&f, 4, 0, 0), [7, 7, 7, 255]);
    assert_eq!(px(&f, 4, 1, 0), [0, 0, 0, 0]);
    assert_eq!(px(&f, 4, 1, 1), [0, 0, 0, 0]);
}

#[test]
fn translucent_rect_blends_exactly() {
    let mut f = vec![100u8; 4 * 1 * 1];
    draw_rect(&mut f, 0, 0, 1, 1, Color { r: 200, g: 0, b: 100, a: 128 }, 1, 1);
    // out = (src * a + dst * (255 - a)) / 255 with dst = 100.
    let blend = |src: u32| ((src * 128 + 100 * 127) / 255) as u8;
    assert_eq!(px(&f, 1, 0, 0), [blend(200), blend(0), blend(100), 255]);
}

#[test]
fn plus_icon_draws_both_arms() {
    let mut f = vec![0u8; 4 * 5 * 5];
    draw_icon_plus(&mut f, 1, 1, 3, Color { r: 9, g: 8, b: 7, a: 255 }, 5, 5);
    // Vertical arm at x = 1 + 3/2 = 2, rows 1..4.
    for y in 1..4 {
        assert_eq!(px(&f, 5, 2, y), [9, 8, 7, 255]);
    }
    // Horizontal arm at y = 2, columns 1..4.
    for x in 1..4 {
        assert_eq!(px(&f, 5, x, 2), [9, 8, 7, 255]);
    }
    assert_eq!(px(&f, 5, 0, 0), [0, 0, 0, 0]);
    assert_eq!(px(&f, 5, 1, 1), [0, 0, 0, 0]);
}

#[test]
fn chart_icon_draws_three_rising_bars() {
    let mut f = vec![0u8; 4 * 16 * 16];
    let c = Color { r: 1, g: 2, b: 3, a: 255 };
    // Icon at (0, 0), size 12: bars are 3 wide with stride 4, and
    // 4, 8 and 12 tall from the icon's bottom edge at y = 12.
    draw_icon_chart(&mut f, 0, 0, 12, c, 16, 16);
    assert_eq!(px(&f, 16, 0, 11), [1, 2, 3, 255]); // bar 0 bottom
    assert_eq!(px(&f, 16, 0, 7), [0, 0, 0, 0]); // above bar 0
    assert_eq!(px(&f, 16, 4, 5), [1, 2, 3, 255]); // bar 1
    assert_eq!(px(&f, 16, 8, 0), [1, 2, 3, 255]); // bar 2 reaches the top
    assert_eq!(px(&f, 16, 3, 11), [0, 0, 0, 0]); // the gap between bars
}

#[test]
fn color_lerp_and_alpha() {
    let black = Color { r: 0, g: 0, b: 0, a: 255 };
    let white = Color { r: 255, g: 255, b: 255, a: 255 };
    let mid = Color::lerp(black, white, 500);
    assert_eq!((mid.r, mid.g, mid.b, mid.a), (127, 127, 127, 255));
    assert_eq!(Color::lerp(black, white, 0).r, 0);
    assert_eq!(Color::lerp(black, white, 1000).r, 255);
    assert_eq!(Color::lerp(white, black, 1000).r, 0);
    let faded = white.alpha(80);
    assert_eq!((faded.r, faded.a), (255, 80));
}

#[test]
fn themes_carry_their_palettes() {
    let dark = Theme::dark();
    assert_eq!(dark.name, "Dark");
    assert_eq!((dark.colors.background.r, dark.colors.background.g, dark.colors.background.b), (15, 23, 42));
    assert_eq!(dark.colors.primary.b, 229);
    let light = Theme::light();
    assert_eq!(light.name, "Light");
    assert_eq!(light.colors.surface.r, 255);
    assert_eq!(dark.spacing.md, 16);
    assert_eq!(dark.radius.lg, 12);

    let mut themed = Theme::dark();
    themed.set_colors(light.colors);
    assert_eq!(themed.colors.surface.r, 255);
    assert_eq!(themed.name, "Dark");
}

#[test]
fn system_font_candidates_per_platform() {
    let linux = get_system_font(Platform::Linux, "DejaVuSans");
    assert_eq!(
        linux,
        vec![
            "/usr/share/fonts/truetype/DejaVuSans.ttf".to_string(),
            "/usr/share/fonts/TTF/DejaVuSans.ttf".to_string(),
            "/usr/local/share/fonts/DejaVuSans.ttf".to_string(),
        ]
    );
    let windows = get_system_font(Platform::Windows, "Arial");
    assert_eq!(
        windows,
        vec![
            "C:\\Windows\\Fonts\\Arial.ttf".to_string(),
            "C:\\Windows\\Fonts\\arial.ttf".to_string(),
        ]
    );
    let mac = get_system_font(Platform::MacOs, "Helvetica");
    assert_eq!(mac.len(), 2);
    assert_eq!(mac[1], "/Library/Fonts/Helvetica.ttc");
}

#[test]
fn modifier_builders_compose() {
    let m = rustui::Modifier::new().p(10).b(Color { r: 1, g: 2, b: 3, a: 4 }).s(50, 60);
    assert_eq!(m.padding, 10);
    assert_eq!(m.background.unwrap().g, 2);
    assert_eq!(m.width, Some(50));
    assert_eq!(m.height, Some(60));
    assert_eq!(rustui::pad(5).padding, 5);
    assert_eq!(rustui::sz(7, 8).width, Some(7));
    assert!(rustui::bg(Color { r: 0, g: 0, b: 0, a: 0 }).background.is_some());
}

#[test]
fn rect_containment_is_inclusive() {
    let r = rustui::Rect { x: 10, y: 10, w: 0, h: 0 };
    assert!(r.contains((10, 10)));
    assert!(!r.contains((11, 10)));
    let r = rustui::Rect { x: 0, y: 0, w: 5, h: 5 };
    assert!(r.contains((5, 5)));
    assert!(!r.contains((6, 5)));
}
