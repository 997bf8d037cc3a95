use easyfps::fps_capture::FpsData;
use easyfps::stats::{compute_stats, MIN_SAMPLES, RECENT_WINDOW};
use easyfps::window::MAX_SAMPLES;

fn as_fps(thousandths: u64) -> f64 {
    thousandths as f64 / 1000.0
}

#[test]
fn empty_snapshot_has_no_statistics() {
    assert_eq!(compute_stats(&Vec::new()), None);
    assert_eq!(MIN_SAMPLES, 1);
}

#[test]
fn one_sample_is_enough() {
    let stats = compute_stats(&vec![20_000]);
    assert_eq!(stats, Some(FpsData { fps: 50_000, one_percent_low: 50_000 }));
}

#[test]
fn literal_window_of_five() {
    let window = vec![10_000, 10_000, 10_000, 10_000, 100_000];
    let stats = compute_stats(&window).unwrap();
    assert_eq!(stats.one_percent_low, 10_000);
    assert_eq!(stats.fps, 35_714);
    assert!((as_fps(stats.one_percent_low) - 10.0).abs() < 1e-9);
    assert!((as_fps(stats.fps) - 35.7).abs() < 0.05);
}

#[test]
fn literal_window_in_any_order() {
    let expected = Some(FpsData { fps: 35_714, one_percent_low: 10_000 });
    assert_eq!(compute_stats(&vec![100_000, 10_000, 10_000, 10_000, 10_000]), expected);
    assert_eq!(compute_stats(&vec![10_000, 10_000, 100_000, 10_000, 10_000]), expected);
}

#[test]
fn uniform_samples_give_equal_rates() {
    let stats = compute_stats(&vec![16_600; 5]).unwrap();
    assert_eq!(stats.fps, 60_240);
    assert_eq!(stats.one_percent_low, 60_240);
    assert!((as_fps(stats.fps) - 60.2).abs() < 0.05);
    let many = compute_stats(&vec![16_600; MAX_SAMPLES]).unwrap();
    assert_eq!(many.fps, 60_240);
    assert_eq!(many.one_percent_low, 60_240);
}

#[test]
fn mean_rate_uses_only_the_recent_samples() {
    assert_eq!(RECENT_WINDOW, 60);
    let mut window = vec![50_000; 40];
    window.extend(vec![10_000; 60]);
    let stats = compute_stats(&window).unwrap();
    assert_eq!(stats.fps, 100_000);
    assert_eq!(stats.one_percent_low, 20_000);
}

#[test]
fn mean_rate_takes_one_old_sample_at_sixty_one() {
    let mut window = vec![40_000];
    window.extend(vec![10_000; 60]);
    let stats = compute_stats(&window).unwrap();
    assert_eq!(stats.fps, 100_000);
    assert_eq!(stats.one_percent_low, 25_000);
    let mut shorter = vec![40_000];
    shorter.extend(vec![10_000; 59]);
    let stats = compute_stats(&shorter).unwrap();
    // 60 frames in 630 ms.
    assert_eq!(stats.fps, 95_238);
}

#[test]
fn slowest_hundredth_is_one_sample_up_to_a_hundred() {
    let mut window = vec![10_000; 98];
    window.push(100_000);
    window.push(50_000);
    assert_eq!(window.len(), 100);
    let stats = compute_stats(&window).unwrap();
    assert_eq!(stats.one_percent_low, 10_000);
}

#[test]
fn slowest_hundredth_is_rounded_up() {
    let mut window = vec![100_000, 50_000];
    window.extend(vec![10_000; 99]);
    assert_eq!(window.len(), 101);
    let stats = compute_stats(&window).unwrap();
    // The two slowest frames take 150 ms together.
    assert_eq!(stats.one_percent_low, 13_333);
    assert_eq!(stats.fps, 100_000);
}

#[test]
fn slowest_hundredth_of_a_full_window_is_twenty_samples() {
    let mut window: Vec<u32> = Vec::new();
    for i in 0..MAX_SAMPLES {
        // Nineteen frames of 40 ms and one of 60 ms among frames of 5 ms.
        if i % 100 == 7 {
            window.push(if i == 7 { 60_000 } else { 40_000 });
        } else {
            window.push(5_000);
        }
    }
    let stats = compute_stats(&window).unwrap();
    // 20 frames in 19 * 40 + 60 = 820 ms.
    assert_eq!(stats.one_percent_low, 24_390);
    // The last 60 frames hold none of the slow ones.
    assert_eq!(stats.fps, 200_000);
}

#[test]
fn low_rate_never_exceeds_mean_rate() {
    let mut seed: u32 = 12345;
    for length in [1usize, 2, 3, 59, 60, 61, 99, 100, 101, 200, 777, 2000] {
        let mut window: Vec<u32> = Vec::new();
        for _ in 0..length {
            seed = seed.wrapping_mul(1_103_515_245).wrapping_add(12_345);
            window.push(1_000 + (seed >> 8) % 999_001);
        }
        let stats = compute_stats(&window).unwrap();
        assert!(stats.one_percent_low <= stats.fps, "length {}", length);
        assert!(stats.one_percent_low >= 1_000);
        assert!(stats.fps <= 1_000_000);
    }
}

#[test]
fn frames_of_no_duration_give_rate_zero() {
    assert_eq!(compute_stats(&vec![0, 0, 0]), Some(FpsData { fps: 0, one_percent_low: 0 }));
    assert_eq!(
        compute_stats(&vec![0, 5_000]),
        Some(FpsData { fps: 400_000, one_percent_low: 200_000 })
    );
}

#[test]
fn rates_are_rounded_down() {
    // 3 frames in 7 ms: 428.571... frames per second.
    let stats = compute_stats(&vec![2_000, 2_000, 3_000]).unwrap();
    assert_eq!(stats.fps, 428_571);
    // The slowest frame: 333.333... frames per second.
    assert_eq!(stats.one_percent_low, 333_333);
}

#[test]
fn default_fps_data_is_zero() {
    assert_eq!(FpsData::default(), FpsData { fps: 0, one_percent_low: 0 });
}
