use easyfps::overlay::{
    calculate_dimensions, color_reference, place_window, OverlayContent, OVERLAY_MARGIN,
};
use easyfps::settings::{FpsColor, OverlayPosition, OverlaySize};

fn content(size: OverlaySize, fps: u64, low: bool, cpu: bool, gpu: bool) -> OverlayContent {
    OverlayContent { fps, size, show_1_percent_low: low, show_cpu_usage: cpu, show_gpu_usage: gpu }
}

#[test]
fn frame_rate_alone() {
    let dims = calculate_dimensions(&content(OverlaySize::Medium, 60_000, false, false, false));
    assert_eq!(dims, (65, 52, 31, 18));
    let dims = calculate_dimensions(&content(OverlaySize::Small, 60_000, false, false, false));
    assert_eq!(dims, (55, 42, 24, 15));
    let dims = calculate_dimensions(&content(OverlaySize::Large, 60_000, false, false, false));
    assert_eq!(dims, (75, 65, 38, 21));
}

#[test]
fn width_of_the_frame_rate_follows_its_digits() {
    let width = |fps: u64| {
        calculate_dimensions(&content(OverlaySize::Medium, fps, false, false, false)).2
    };
    assert_eq!(width(0), 15);
    assert_eq!(width(9_999), 15);
    assert_eq!(width(10_000), 31);
    assert_eq!(width(99_999), 31);
    assert_eq!(width(100_000), 46);
    assert_eq!(width(u64::MAX), 46);
}

#[test]
fn widths_match_the_scaled_font_heights() {
    for size in [OverlaySize::Small, OverlaySize::Medium, OverlaySize::Large] {
        let (_, _, font_large, font_small) = size.dimensions();
        for (fps, digits) in [(5_000u64, 1.0f32), (50_000, 2.0), (500_000, 3.0)] {
            let dims = calculate_dimensions(&content(size, fps, false, false, false));
            let number = if digits == 1.0 {
                (font_large as f32 * 0.6) as i32
            } else {
                (font_large as f32 * 0.6 * digits) as i32
            };
            assert_eq!(dims.2, number);
            assert_eq!(dims.3, (font_small as f32 * 0.5 * 3.0) as i32);
        }
        let low = calculate_dimensions(&content(size, 5_000, true, false, false));
        assert_eq!(low.0, 6 + (font_large as f32 * 0.6 * 8.0) as i32 + 6);
        let cpu = calculate_dimensions(&content(size, 5_000, false, true, false));
        assert_eq!(cpu.0, 6 + (font_large as f32 * 0.6 * 10.0) as i32 + 6);
    }
}

#[test]
fn further_lines_add_to_width_and_height() {
    let dims = calculate_dimensions(&content(OverlaySize::Medium, 60_000, true, false, false));
    assert_eq!(dims, (136, 82, 31, 18));
    let dims = calculate_dimensions(&content(OverlaySize::Medium, 60_000, false, true, false));
    assert_eq!(dims, (168, 82, 31, 18));
    let dims = calculate_dimensions(&content(OverlaySize::Medium, 60_000, false, false, true));
    assert_eq!(dims, (168, 82, 31, 18));
    let dims = calculate_dimensions(&content(OverlaySize::Medium, 60_000, true, true, true));
    assert_eq!(dims, (168, 142, 31, 18));
    let dims = calculate_dimensions(&content(OverlaySize::Large, 144_000, true, true, true));
    assert_eq!(dims, (204, 173, 57, 21));
}

#[test]
fn window_is_placed_in_its_corner() {
    assert_eq!(OVERLAY_MARGIN, 10);
    let shown = content(OverlaySize::Medium, 60_000, true, false, false);
    assert_eq!(place_window(&shown, OverlayPosition::TopRight, 1920), (1815, 10, 95, 82));
    assert_eq!(place_window(&shown, OverlayPosition::TopLeft, 1920), (10, 10, 95, 82));
    let alone = content(OverlaySize::Medium, 60_000, false, false, false);
    assert_eq!(place_window(&alone, OverlayPosition::TopRight, 1920), (1845, 10, 65, 52));
    assert_eq!(place_window(&alone, OverlayPosition::TopRight, 0), (-75, 10, 65, 52));
    assert_eq!(
        place_window(&shown, OverlayPosition::TopRight, i32::MAX),
        (i32::MAX - 105, 10, 95, 82)
    );
}

#[test]
fn colours_are_blue_green_red() {
    assert_eq!(color_reference(FpsColor::White), 0x00FF_FFFF);
    assert_eq!(color_reference(FpsColor::Green), 0x0014_FF39);
}
