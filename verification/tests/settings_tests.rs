use easyfps::settings::{
    FpsColor, OverlayPosition, OverlaySize, Settings, SettingsForm, MAX_OPACITY, MIN_OPACITY,
    RUN_KEY, RUN_VALUE,
};

#[test]
fn colours_have_their_components() {
    assert_eq!(FpsColor::White.to_rgb(), (255, 255, 255));
    assert_eq!(FpsColor::Green.to_rgb(), (57, 255, 20));
}

#[test]
fn sizes_have_their_dimensions() {
    assert_eq!(OverlaySize::Small.dimensions(), (75, 42, 20, 10));
    assert_eq!(OverlaySize::Medium.dimensions(), (95, 52, 26, 12));
    assert_eq!(OverlaySize::Large.dimensions(), (120, 65, 32, 14));
}

#[test]
fn defaults() {
    assert_eq!(OverlayPosition::default(), OverlayPosition::TopRight);
    assert_eq!(FpsColor::default(), FpsColor::White);
    assert_eq!(OverlaySize::default(), OverlaySize::Medium);
    let settings = Settings::default();
    assert_eq!(settings.position, OverlayPosition::TopRight);
    assert_eq!(settings.fps_color, FpsColor::White);
    assert_eq!(settings.size, OverlaySize::Medium);
    assert!(!settings.start_with_windows);
    assert!(settings.show_1_percent_low);
    assert!(!settings.show_cpu_usage);
    assert!(!settings.show_gpu_usage);
    assert_eq!(settings.overlay_opacity, 100);
    assert_eq!((MIN_OPACITY, MAX_OPACITY), (40, 100));
}

fn empty_form() -> SettingsForm {
    SettingsForm {
        position_left: false,
        color_green: false,
        size_small: false,
        size_large: false,
        show_1_percent_low: false,
        show_cpu_usage: false,
        show_gpu_usage: false,
        start_with_windows: false,
        opacity: 40,
    }
}

#[test]
fn form_falls_back_to_the_first_choices() {
    let settings = empty_form().to_settings();
    assert_eq!(settings.position, OverlayPosition::TopRight);
    assert_eq!(settings.fps_color, FpsColor::White);
    assert_eq!(settings.size, OverlaySize::Medium);
    assert!(!settings.show_1_percent_low);
    assert!(!settings.start_with_windows);
    assert_eq!(settings.overlay_opacity, 40);
}

#[test]
fn form_choices_are_taken() {
    let mut form = empty_form();
    form.position_left = true;
    form.color_green = true;
    form.size_large = true;
    form.show_1_percent_low = true;
    form.show_cpu_usage = true;
    form.start_with_windows = true;
    form.opacity = 85;
    assert_eq!(
        form.to_settings(),
        Settings {
            position: OverlayPosition::TopLeft,
            fps_color: FpsColor::Green,
            size: OverlaySize::Large,
            start_with_windows: true,
            show_1_percent_low: true,
            show_cpu_usage: true,
            show_gpu_usage: false,
            overlay_opacity: 85,
        }
    );
    form.size_small = true;
    assert_eq!(form.to_settings().size, OverlaySize::Small);
    form.size_large = false;
    assert_eq!(form.to_settings().size, OverlaySize::Small);
    form.show_gpu_usage = true;
    assert!(form.to_settings().show_gpu_usage);
}

#[test]
fn startup_entry_is_added_with_the_quoted_path() {
    assert_eq!(RUN_KEY, r"HKCU\Software\Microsoft\Windows\CurrentVersion\Run");
    assert_eq!(RUN_VALUE, "EasyFPS");
    let mut settings = Settings::default();
    settings.start_with_windows = true;
    assert_eq!(
        settings.startup_registry_arguments(r"C:\Program Files\EasyFPS\easyfps.exe"),
        vec![
            "add",
            r"HKCU\Software\Microsoft\Windows\CurrentVersion\Run",
            "/v",
            "EasyFPS",
            "/t",
            "REG_SZ",
            "/d",
            "\"C:\\Program Files\\EasyFPS\\easyfps.exe\"",
            "/f",
        ]
    );
    assert_eq!(settings.startup_registry_arguments("")[7], "\"\"");
}

#[test]
fn startup_entry_is_deleted_when_switched_off() {
    let settings = Settings::default();
    assert!(!settings.start_with_windows);
    assert_eq!(
        settings.startup_registry_arguments("anything"),
        vec!["delete", r"HKCU\Software\Microsoft\Windows\CurrentVersion\Run", "/v", "EasyFPS", "/f"]
    );
}
