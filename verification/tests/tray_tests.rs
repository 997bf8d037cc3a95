use easyfps::tray::{
    green_icon_rgba, ClickTracker, DOUBLE_CLICK_MILLIS, ICON_SIZE, MENU_EXIT, MENU_SETTINGS,
};

fn pixel(rgba: &[u8], x: usize, y: usize) -> (u8, u8, u8, u8) {
    let at = (y * ICON_SIZE + x) * 4;
    (rgba[at], rgba[at + 1], rgba[at + 2], rgba[at + 3])
}

#[test]
fn menu_ids() {
    assert_eq!(MENU_SETTINGS, "settings");
    assert_eq!(MENU_EXIT, "exit");
}

#[test]
fn icon_has_four_bytes_per_pixel() {
    assert_eq!(ICON_SIZE, 32);
    assert_eq!(green_icon_rgba().len(), 32 * 32 * 4);
}

#[test]
fn icon_is_a_green_disc_with_a_black_letter() {
    let rgba = green_icon_rgba();
    assert_eq!(pixel(&rgba, 0, 0), (0, 0, 0, 0));
    assert_eq!(pixel(&rgba, 31, 31), (0, 0, 0, 0));
    assert_eq!(pixel(&rgba, 16, 16), (0, 0, 0, 255));
    assert_eq!(pixel(&rgba, 25, 16), (57, 255, 20, 255));
    assert_eq!(pixel(&rgba, 16, 2), (57, 255, 20, 255));
    assert_eq!(pixel(&rgba, 16, 1), (0, 0, 0, 0));
    assert_eq!(pixel(&rgba, 2, 16), (57, 255, 20, 255));
    assert_eq!(pixel(&rgba, 1, 16), (0, 0, 0, 0));
    assert_eq!(pixel(&rgba, 30, 16), (57, 255, 20, 255));
    assert_eq!(pixel(&rgba, 31, 16), (0, 0, 0, 0));
    // The letter: stem, top bar, middle bar.
    assert_eq!(pixel(&rgba, 10, 24), (0, 0, 0, 255));
    assert_eq!(pixel(&rgba, 13, 20), (0, 0, 0, 255));
    assert_eq!(pixel(&rgba, 14, 20), (57, 255, 20, 255));
    assert_eq!(pixel(&rgba, 22, 8), (0, 0, 0, 255));
    assert_eq!(pixel(&rgba, 23, 8), (57, 255, 20, 255));
    assert_eq!(pixel(&rgba, 19, 17), (0, 0, 0, 255));
    assert_eq!(pixel(&rgba, 20, 17), (57, 255, 20, 255));
    assert_eq!(pixel(&rgba, 12, 25), (57, 255, 20, 255));
}

#[test]
fn icon_matches_the_distance_from_the_centre() {
    let rgba = green_icon_rgba();
    for y in 0..ICON_SIZE {
        for x in 0..ICON_SIZE {
            let dx = x as f32 - 16.0;
            let dy = y as f32 - 16.0;
            let inside = (dx.powi(2) + dy.powi(2)).sqrt() <= 14.0;
            let alpha = pixel(&rgba, x, y).3;
            assert_eq!(alpha == 255, inside, "({}, {})", x, y);
            assert!(alpha == 0 || alpha == 255);
        }
    }
}

#[test]
fn two_clicks_in_time_make_a_double_click() {
    assert_eq!(DOUBLE_CLICK_MILLIS, 400);
    let mut tracker = ClickTracker::new();
    assert!(!tracker.on_left_click(1_000));
    assert!(tracker.on_left_click(1_399));
}

#[test]
fn slow_clicks_make_no_double_click() {
    let mut tracker = ClickTracker::new();
    assert!(!tracker.on_left_click(1_000));
    assert!(!tracker.on_left_click(1_400));
    assert!(!tracker.on_left_click(1_800));
    assert!(tracker.on_left_click(1_801));
}

#[test]
fn double_click_is_used_up() {
    let mut tracker = ClickTracker::new();
    assert!(!tracker.on_left_click(0));
    assert!(tracker.on_left_click(100));
    assert!(!tracker.on_left_click(200));
    assert!(tracker.on_left_click(300));
}

#[test]
fn click_before_the_last_one_counts_as_in_time() {
    let mut tracker = ClickTracker::new();
    assert!(!tracker.on_left_click(5_000));
    assert!(tracker.on_left_click(1_000));
}
